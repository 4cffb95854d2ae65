//! The emote lists of the unofficial BetterTTV API.

use vstd::prelude::*;
use crate::error::Mismatch;
use crate::json::{Doc, Json};
use crate::schema::{optional, optional_of, units, units_of, Decode};

pub mod channels;
pub mod global;

verus! {

/// `reqwest::blocking::Response`, the answer to a request before its body is
/// read. It is handed through and never looked into.
#[verifier::external_type_specification]
#[verifier::external_body]
pub struct ExResponse(reqwest::blocking::Response);

/// Where an emote may be used. The API has not been seen to fill this in, so
/// only the number of entries is kept of each list.
#[derive(Clone, Debug, PartialEq)]
pub struct Restrictions {
    pub channels: Vec<()>,
    pub games: Vec<()>,
}

/// What a [`Restrictions`] holds.
pub struct RestrictionsModel {
    pub channels: Seq<()>,
    pub games: Seq<()>,
}

impl DeepView for Restrictions {
    type V = RestrictionsModel;

    open spec fn deep_view(&self) -> RestrictionsModel {
        RestrictionsModel {
            channels: self.channels.deep_view(),
            games: self.games.deep_view(),
        }
    }
}

impl Decode for Restrictions {
    /// An object with the arrays `channels` and `games`, whose items may be
    /// anything.
    open spec fn schema(doc: Doc) -> Result<RestrictionsModel, Mismatch> {
        if !(doc is Object) {
            Err(Mismatch::WrongType)
        } else {
            match doc.array_at("channels"@) {
                Err(mismatch) => Err(mismatch),
                Ok(channels) => match doc.array_at("games"@) {
                    Err(mismatch) => Err(mismatch),
                    Ok(games) => Ok(
                        RestrictionsModel {
                            channels: units_of(channels),
                            games: units_of(games),
                        },
                    ),
                },
            }
        }
    }

    fn from_json(json: &Json) -> (r: Result<Restrictions, Mismatch>) {
        if !json.is_object() {
            return Err(Mismatch::WrongType);
        }
        let channels = json.array_at("channels")?;
        let games = json.array_at("games")?;
        Ok(Restrictions { channels: units(channels), games: units(games) })
    }
}

/// All that the API tells about one emote.
#[derive(Clone, Debug, PartialEq)]
pub struct Emote {
    /// The ID used to identify the emote.
    pub id: String,
    /// The name of the emote.
    pub code: String,
    /// The channel of the creator.
    pub channel: Option<String>,
    /// Where the emote may be used, if the API says so.
    pub restrictions: Option<Restrictions>,
    /// The file extension of the emote's image.
    pub image_type: String,
}

/// What an [`Emote`] holds.
pub struct EmoteModel {
    pub id: Seq<char>,
    pub code: Seq<char>,
    pub channel: Option<Seq<char>>,
    pub restrictions: Option<RestrictionsModel>,
    pub image_type: Seq<char>,
}

impl DeepView for Emote {
    type V = EmoteModel;

    open spec fn deep_view(&self) -> EmoteModel {
        EmoteModel {
            id: self.id@,
            code: self.code@,
            channel: self.channel.deep_view(),
            restrictions: self.restrictions.deep_view(),
            image_type: self.image_type@,
        }
    }
}

impl Decode for Emote {
    /// An object with the texts `id`, `code` and `imageType`; `channel`, a
    /// text, and `restrictions` may be missing or `null`.
    open spec fn schema(doc: Doc) -> Result<EmoteModel, Mismatch> {
        if !(doc is Object) {
            Err(Mismatch::WrongType)
        } else {
            match doc.text_at("id"@) {
                Err(mismatch) => Err(mismatch),
                Ok(id) => match doc.text_at("code"@) {
                    Err(mismatch) => Err(mismatch),
                    Ok(code) => match doc.optional_text_at("channel"@) {
                        Err(mismatch) => Err(mismatch),
                        Ok(channel) => match optional_of::<Restrictions>(
                            doc.optional_at("restrictions"@),
                        ) {
                            Err(mismatch) => Err(mismatch),
                            Ok(restrictions) => match doc.text_at("imageType"@) {
                                Err(mismatch) => Err(mismatch),
                                Ok(image_type) => Ok(
                                    EmoteModel { id, code, channel, restrictions, image_type },
                                ),
                            },
                        },
                    },
                },
            }
        }
    }

    fn from_json(json: &Json) -> (r: Result<Emote, Mismatch>) {
        if !json.is_object() {
            return Err(Mismatch::WrongType);
        }
        let id = json.text_at("id")?;
        let code = json.text_at("code")?;
        let channel = json.optional_text_at("channel")?;
        let restrictions = optional::<Restrictions>(json.optional_at("restrictions"))?;
        let image_type = json.text_at("imageType")?;
        Ok(Emote { id, code, channel, restrictions, image_type })
    }
}

/// A document that lacks `channels` or `games` is no restriction.
pub proof fn restrictions_missing_field_fails(doc: Doc, key: Seq<char>)
    requires
        key == "channels"@ || key == "games"@,
        doc.member(key) is None,
    ensures
        Restrictions::schema(doc) is Err,
{
}

/// A document that lacks `id`, `code` or `imageType` is no emote.
pub proof fn emote_missing_field_fails(doc: Doc, key: Seq<char>)
    requires
        key == "id"@ || key == "code"@ || key == "imageType"@,
        doc.member(key) is None,
    ensures
        Emote::schema(doc) is Err,
{
}

} // verus!
