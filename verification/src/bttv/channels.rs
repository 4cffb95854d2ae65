//! Emotes which are enabled on a specific channel.

use vstd::prelude::*;
use vstd::string::StringExecFns;
use crate::bttv::{Emote, EmoteModel, Restrictions};
use crate::error::{Failure, Mismatch};
use crate::json::{parsed, Doc, Json};
use crate::schema::{
    decode,
    decoded,
    list_keeps_order,
    list,
    list_of,
    optional_of,
    units,
    units_of,
    Decode,
};

verus! {

/// The address of the channels: a channel's emotes are found under this
/// address followed by the channel's name.
pub const CHANNELS: &'static str = "https://api.betterttv.net/2/channels/";

/// The emotes of a response, in the order of the response.
pub type Emotes = Vec<Emote>;

/// The API response: a url template and the emotes.
#[derive(Clone, Debug, PartialEq)]
pub struct Channel {
    /// The current status of the API.
    pub status: i32,
    /// Template for the address of every emote's image; its placeholders are
    /// left as they are.
    pub url_template: String,
    /// The bots of the channel. Their entries are not read: only their number
    /// is kept.
    pub bots: Vec<()>,
    /// The emotes on this channel.
    pub emotes: Emotes,
}

/// What a [`Channel`] holds.
pub struct ChannelModel {
    pub status: i32,
    pub url_template: Seq<char>,
    pub bots: Seq<()>,
    pub emotes: Seq<EmoteModel>,
}

impl DeepView for Channel {
    type V = ChannelModel;

    open spec fn deep_view(&self) -> ChannelModel {
        ChannelModel {
            status: self.status,
            url_template: self.url_template@,
            bots: self.bots.deep_view(),
            emotes: self.emotes.deep_view(),
        }
    }
}

impl Decode for Channel {
    /// An object with the integer `status`, the text `urlTemplate`, the array
    /// `bots`, whose items may be anything, and the array `emotes`, each item
    /// of which is an emote.
    open spec fn schema(doc: Doc) -> Result<ChannelModel, Mismatch> {
        if !(doc is Object) {
            Err(Mismatch::WrongType)
        } else {
            match doc.int_at("status"@) {
                Err(mismatch) => Err(mismatch),
                Ok(status) => match doc.text_at("urlTemplate"@) {
                    Err(mismatch) => Err(mismatch),
                    Ok(url_template) => match doc.array_at("bots"@) {
                        Err(mismatch) => Err(mismatch),
                        Ok(bots) => match doc.array_at("emotes"@) {
                            Err(mismatch) => Err(mismatch),
                            Ok(items) => match list_of::<Emote>(items) {
                                Err(mismatch) => Err(mismatch),
                                Ok(emotes) => Ok(
                                    ChannelModel {
                                        status,
                                        url_template,
                                        bots: units_of(bots),
                                        emotes,
                                    },
                                ),
                            },
                        },
                    },
                },
            }
        }
    }

    fn from_json(json: &Json) -> (r: Result<Channel, Mismatch>) {
        if !json.is_object() {
            return Err(Mismatch::WrongType);
        }
        let status = json.int_at("status")?;
        let url_template = json.text_at("urlTemplate")?;
        let bots = units(json.array_at("bots")?);
        let emotes = list::<Emote>(json.array_at("emotes")?)?;
        Ok(Channel { status, url_template, bots, emotes })
    }
}

/// The address that answers with the emotes of the channel `name`. The name
/// is appended as it is: escaping it is the caller's business.
pub fn endpoint(name: &str) -> (url: String)
    ensures
        url@ == CHANNELS@ + name@,
{
    let mut url = CHANNELS.to_owned();
    url.append(name);
    url
}

/// Says what became of a request to a channel's [`endpoint`]: the response as
/// it came, or a transport failure that keeps the cause.
pub fn download_json(answer: Result<reqwest::blocking::Response, reqwest::Error>) -> (r: Result<
    reqwest::blocking::Response,
    Failure,
>)
    ensures
        r == match answer {
            Ok(response) => Ok::<reqwest::blocking::Response, Failure>(response),
            Err(cause) => Err::<reqwest::blocking::Response, Failure>(Failure::Transport(cause)),
        },
{
    match answer {
        Ok(response) => Ok(response),
        Err(cause) => Err(Failure::from(cause)),
    }
}

/// Deserialize json into `Channel`.
pub fn from_str(json: &str) -> (r: Result<Channel, Failure>)
    ensures
        decoded(json@, r),
{
    decode::<Channel>(json)
}

/// Whether a document has the shape of a response all of whose emotes, the
/// items of `emotes`, fit their schema.
///
/// An item fits where it is an object with the texts `id`, `code` and
/// `imageType` whose `channel` and `restrictions`, if it has them, are what
/// the schema of an emote takes.
pub open spec fn well_formed(doc: Doc, items: Seq<Doc>) -> bool {
    &&& doc is Object
    &&& doc.int_at("status"@) is Ok
    &&& doc.text_at("urlTemplate"@) is Ok
    &&& doc.array_at("bots"@) is Ok
    &&& doc.array_at("emotes"@) == Ok::<Seq<Doc>, Mismatch>(items)
    &&& forall|i: int|
        0 <= i < items.len() ==> {
            let item = #[trigger] items[i];
            &&& item is Object
            &&& item.text_at("id"@) is Ok
            &&& item.text_at("code"@) is Ok
            &&& item.text_at("imageType"@) is Ok
            &&& item.optional_text_at("channel"@) is Ok
            &&& optional_of::<Restrictions>(item.optional_at("restrictions"@)) is Ok
        }
}

/// The schema takes every well-formed response, and gives it one emote for
/// each item of `emotes`, in the same order.
pub proof fn emotes_keep_order(doc: Doc, items: Seq<Doc>)
    requires
        well_formed(doc, items),
    ensures
        Channel::schema(doc) is Ok,
        Channel::schema(doc)->Ok_0.emotes.len() == items.len(),
        forall|i: int|
            0 <= i < items.len() ==> Emote::schema(items[i]) == Ok::<EmoteModel, Mismatch>(
                #[trigger] Channel::schema(doc)->Ok_0.emotes[i],
            ),
{
    list_keeps_order::<Emote>(items);
    assert forall|i: int| 0 <= i < items.len() implies Emote::schema(#[trigger] items[i]) is Ok by {
        let item = items[i];
        assert(optional_of::<Restrictions>(item.optional_at("restrictions"@)) is Ok);
    }
}

/// Decoding the text of a well-formed response succeeds, and the response
/// holds one emote for each item of `emotes`, in the same order.
pub proof fn from_str_keeps_order(
    text: Seq<char>,
    doc: Doc,
    items: Seq<Doc>,
    r: Result<Channel, Failure>,
)
    requires
        parsed(text) == Some(doc),
        well_formed(doc, items),
        decoded(text, r),
    ensures
        r is Ok,
        r->Ok_0.emotes@.len() == items.len(),
        forall|i: int|
            0 <= i < items.len() ==> Emote::schema(items[i]) == Ok::<EmoteModel, Mismatch>(
                (#[trigger] r->Ok_0.emotes@[i]).deep_view(),
            ),
{
    emotes_keep_order(doc, items);
    let emotes = Channel::schema(doc)->Ok_0.emotes;
    assert(r->Ok_0.emotes.deep_view() == emotes);
    assert forall|i: int| 0 <= i < items.len() implies Emote::schema(items[i]) == Ok::<
        EmoteModel,
        Mismatch,
    >((#[trigger] r->Ok_0.emotes@[i]).deep_view()) by {
        assert(r->Ok_0.emotes.deep_view()[i] == r->Ok_0.emotes@[i].deep_view());
        assert(Emote::schema(items[i]) == Ok::<EmoteModel, Mismatch>(emotes[i]));
    }
}

/// A document that lacks `status`, `urlTemplate`, `bots` or `emotes` is no
/// response.
pub proof fn missing_field_fails(doc: Doc, key: Seq<char>)
    requires
        key == "status"@ || key == "urlTemplate"@ || key == "bots"@ || key == "emotes"@,
        doc.member(key) is None,
    ensures
        Channel::schema(doc) is Err,
{
}

} // verus!
