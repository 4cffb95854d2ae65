//! Emotes which are available on every channel.

use vstd::prelude::*;
use crate::bttv::{Emote, EmoteModel};
use crate::error::{Failure, Mismatch};
use crate::json::{Doc, Json};
use crate::schema::{decode, decoded, list, list_of, Decode};

verus! {

/// The address that answers with the global emotes.
pub const ENDPOINT: &'static str = "https://api.betterttv.net/2/emotes";

/// The emotes of a response, in the order of the response.
pub type Emotes = Vec<Emote>;

/// The API response: a url template and the emotes.
#[derive(Clone, Debug, PartialEq)]
pub struct Global {
    /// The current status of the API.
    pub status: i32,
    /// Template for the address of every emote's image; its placeholders are
    /// left as they are.
    pub url_template: String,
    /// All global emotes.
    pub emotes: Emotes,
}

/// What a [`Global`] holds.
pub struct GlobalModel {
    pub status: i32,
    pub url_template: Seq<char>,
    pub emotes: Seq<EmoteModel>,
}

impl DeepView for Global {
    type V = GlobalModel;

    open spec fn deep_view(&self) -> GlobalModel {
        GlobalModel {
            status: self.status,
            url_template: self.url_template@,
            emotes: self.emotes.deep_view(),
        }
    }
}

impl Decode for Global {
    /// An object with the integer `status`, the text `urlTemplate` and the
    /// array `emotes`, each item of which is an emote.
    open spec fn schema(doc: Doc) -> Result<GlobalModel, Mismatch> {
        if !(doc is Object) {
            Err(Mismatch::WrongType)
        } else {
            match doc.int_at("status"@) {
                Err(mismatch) => Err(mismatch),
                Ok(status) => match doc.text_at("urlTemplate"@) {
                    Err(mismatch) => Err(mismatch),
                    Ok(url_template) => match doc.array_at("emotes"@) {
                        Err(mismatch) => Err(mismatch),
                        Ok(items) => match list_of::<Emote>(items) {
                            Err(mismatch) => Err(mismatch),
                            Ok(emotes) => Ok(GlobalModel { status, url_template, emotes }),
                        },
                    },
                },
            }
        }
    }

    fn from_json(json: &Json) -> (r: Result<Global, Mismatch>) {
        if !json.is_object() {
            return Err(Mismatch::WrongType);
        }
        let status = json.int_at("status")?;
        let url_template = json.text_at("urlTemplate")?;
        let emotes = list::<Emote>(json.array_at("emotes")?)?;
        Ok(Global { status, url_template, emotes })
    }
}

/// Says what became of a request to [`ENDPOINT`]: the response as it came, or
/// a transport failure that keeps the cause.
pub fn download_json(answer: Result<reqwest::blocking::Response, reqwest::Error>) -> (r: Result<
    reqwest::blocking::Response,
    Failure,
>)
    ensures
        r == match answer {
            Ok(response) => Ok::<reqwest::blocking::Response, Failure>(response),
            Err(cause) => Err::<reqwest::blocking::Response, Failure>(Failure::Transport(cause)),
        },
{
    match answer {
        Ok(response) => Ok(response),
        Err(cause) => Err(Failure::from(cause)),
    }
}

/// Deserialize json into `Global`.
pub fn from_str(json: &str) -> (r: Result<Global, Failure>)
    ensures
        decoded(json@, r),
{
    decode::<Global>(json)
}

/// A document that lacks `status`, `urlTemplate` or `emotes` is no response.
pub proof fn missing_field_fails(doc: Doc, key: Seq<char>)
    requires
        key == "status"@ || key == "urlTemplate"@ || key == "emotes"@,
        doc.member(key) is None,
    ensures
        Global::schema(doc) is Err,
{
}

} // verus!
