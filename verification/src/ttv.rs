//! The emote lists of twitchemotes.com.
//!
//! The API does not contain a template URL to download emotes from, so this
//! crate does not provide it either. If you need to download emotes you can
//! try <https://static-cdn.jtvnw.net/emoticons/v1/{id}/{size}> as your
//! template: replace {id} with the id of the [`Emote`] and {size} with 1.0,
//! 2.0 or 3.0 for the respective resolution. Keep in mind that many emotes
//! were made for the 1.0 size.

use vstd::prelude::*;
use crate::error::{Failure, Mismatch};
use crate::json::{Doc, Json};
use crate::schema::Decode;

pub mod global;
pub mod subscriber;

verus! {

/// What a blocking GET came to.
#[derive(Debug)]
pub enum Fetched {
    /// The transport could not complete the request.
    Refused(reqwest::Error),
    /// The response came, and its body could not be read to the end.
    Cut(std::io::Error),
    /// The whole body of the response.
    Body(String),
}

/// Says what became of a request: the body as it was read, a transport
/// failure where the request was not completed, an I/O failure where the body
/// could not be read. Each failure keeps its cause.
pub fn download(fetched: Fetched) -> (r: Result<String, Failure>)
    ensures
        r == match fetched {
            Fetched::Refused(cause) => Err::<String, Failure>(Failure::Transport(cause)),
            Fetched::Cut(cause) => Err::<String, Failure>(Failure::Io(cause)),
            Fetched::Body(content) => Ok::<String, Failure>(content),
        },
{
    match fetched {
        Fetched::Refused(cause) => Err(Failure::from(cause)),
        Fetched::Cut(cause) => Err(Failure::from(cause)),
        Fetched::Body(content) => Ok(content),
    }
}

/// All that the API tells about one emote.
#[derive(Clone, Debug, PartialEq)]
pub struct Emote {
    /// The ID used to identify the emote.
    pub id: i32,
    /// The name of the emote.
    pub code: String,
    /// The set which this emote belongs to.
    pub emoticon_set: i32,
    /// Describes the emote; so far the API leaves it out.
    pub description: Option<String>,
}

/// What an [`Emote`] holds.
pub struct EmoteModel {
    pub id: i32,
    pub code: Seq<char>,
    pub emoticon_set: i32,
    pub description: Option<Seq<char>>,
}

impl DeepView for Emote {
    type V = EmoteModel;

    open spec fn deep_view(&self) -> EmoteModel {
        EmoteModel {
            id: self.id,
            code: self.code@,
            emoticon_set: self.emoticon_set,
            description: self.description.deep_view(),
        }
    }
}

impl Decode for Emote {
    /// An object with the integer `id`, the text `code` and the integer
    /// `emoticon_set`; `description`, a text, may be missing or `null`.
    open spec fn schema(doc: Doc) -> Result<EmoteModel, Mismatch> {
        if !(doc is Object) {
            Err(Mismatch::WrongType)
        } else {
            match doc.int_at("id"@) {
                Err(mismatch) => Err(mismatch),
                Ok(id) => match doc.text_at("code"@) {
                    Err(mismatch) => Err(mismatch),
                    Ok(code) => match doc.int_at("emoticon_set"@) {
                        Err(mismatch) => Err(mismatch),
                        Ok(emoticon_set) => match doc.optional_text_at("description"@) {
                            Err(mismatch) => Err(mismatch),
                            Ok(description) => Ok(
                                EmoteModel { id, code, emoticon_set, description },
                            ),
                        },
                    },
                },
            }
        }
    }

    fn from_json(json: &Json) -> (r: Result<Emote, Mismatch>) {
        if !json.is_object() {
            return Err(Mismatch::WrongType);
        }
        let id = json.int_at("id")?;
        let code = json.text_at("code")?;
        let emoticon_set = json.int_at("emoticon_set")?;
        let description = json.optional_text_at("description")?;
        Ok(Emote { id, code, emoticon_set, description })
    }
}

/// A document that lacks `id`, `code` or `emoticon_set` is no emote.
pub proof fn emote_missing_field_fails(doc: Doc, key: Seq<char>)
    requires
        key == "id"@ || key == "code"@ || key == "emoticon_set"@,
        doc.member(key) is None,
    ensures
        Emote::schema(doc) is Err,
{
}

} // verus!
