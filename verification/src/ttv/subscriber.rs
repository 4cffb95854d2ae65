//! Subscriber Emote API.

use vstd::prelude::*;
use crate::error::{Failure, Mismatch};
use crate::json::{Doc, Json};
use crate::schema::{decode, decoded, list, list_of, optional, optional_of, Decode};
use crate::table::Table;
use crate::ttv::{download, Emote, EmoteModel, Fetched};

verus! {

/// The address that answers with the channels and their emotes.
pub const ENDPOINT: &'static str = "https://twitchemotes.com/api_cache/v3/subscriber.json";

/// A text that may be left empty to say that there is none: the empty text
/// is no value, every other text is itself.
pub open spec fn optional_string_of(text: Seq<char>) -> Option<Seq<char>> {
    if text.len() == 0 {
        None
    } else {
        Some(text)
    }
}

/// Takes the empty text for no value, and every other text as it is.
pub fn optional_string(text: String) -> (r: Option<String>)
    ensures
        r.deep_view() == optional_string_of(text@),
{
    if text.as_str().is_empty() {
        None
    } else {
        Some(text)
    }
}

/// Information about either a subscriber or a bits badge.
#[derive(Clone, Debug, PartialEq)]
pub struct Badge {
    /// 1x Resolution
    pub image_url_1x: String,
    /// 2x Resolution
    pub image_url_2x: String,
    /// 4x Resolution
    pub image_url_4x: String,
    /// Describes the badge
    pub description: String,
    /// The title of the badge
    pub title: String,
    pub click_action: String,
    /// Where a click leads, if anywhere. The API may leave it out, or leave
    /// it empty: both say that a click leads nowhere.
    pub click_url: Option<String>,
}

/// What a [`Badge`] holds.
pub struct BadgeModel {
    pub image_url_1x: Seq<char>,
    pub image_url_2x: Seq<char>,
    pub image_url_4x: Seq<char>,
    pub description: Seq<char>,
    pub title: Seq<char>,
    pub click_action: Seq<char>,
    pub click_url: Option<Seq<char>>,
}

impl DeepView for Badge {
    type V = BadgeModel;

    open spec fn deep_view(&self) -> BadgeModel {
        BadgeModel {
            image_url_1x: self.image_url_1x@,
            image_url_2x: self.image_url_2x@,
            image_url_4x: self.image_url_4x@,
            description: self.description@,
            title: self.title@,
            click_action: self.click_action@,
            click_url: self.click_url.deep_view(),
        }
    }
}

/// What the schema of a badge makes of the member `click_url`: a badge
/// without the member has no address, nor has one whose member is the empty
/// text; any other text is the address, as it stands. A member that is no
/// text, `null` too, is refused.
pub open spec fn click_url_of(doc: Doc) -> Result<Option<Seq<char>>, Mismatch> {
    match doc.member("click_url"@) {
        None => Ok(None),
        Some(Doc::Text(text)) => Ok(optional_string_of(text)),
        Some(_) => Err(Mismatch::WrongType),
    }
}

impl Decode for Badge {
    /// An object with the texts `image_url_1x`, `image_url_2x`,
    /// `image_url_4x`, `description`, `title` and `click_action`. The text
    /// `click_url` may be missing, and is empty where there is no address.
    open spec fn schema(doc: Doc) -> Result<BadgeModel, Mismatch> {
        if !(doc is Object) {
            Err(Mismatch::WrongType)
        } else {
            match doc.text_at("image_url_1x"@) {
                Err(mismatch) => Err(mismatch),
                Ok(image_url_1x) => match doc.text_at("image_url_2x"@) {
                    Err(mismatch) => Err(mismatch),
                    Ok(image_url_2x) => match doc.text_at("image_url_4x"@) {
                        Err(mismatch) => Err(mismatch),
                        Ok(image_url_4x) => match doc.text_at("description"@) {
                            Err(mismatch) => Err(mismatch),
                            Ok(description) => match doc.text_at("title"@) {
                                Err(mismatch) => Err(mismatch),
                                Ok(title) => match doc.text_at("click_action"@) {
                                    Err(mismatch) => Err(mismatch),
                                    Ok(click_action) => match click_url_of(doc) {
                                        Err(mismatch) => Err(mismatch),
                                        Ok(click_url) => Ok(
                                            BadgeModel {
                                                image_url_1x,
                                                image_url_2x,
                                                image_url_4x,
                                                description,
                                                title,
                                                click_action,
                                                click_url,
                                            },
                                        ),
                                    },
                                },
                            },
                        },
                    },
                },
            }
        }
    }

    fn from_json(json: &Json) -> (r: Result<Badge, Mismatch>) {
        if !json.is_object() {
            return Err(Mismatch::WrongType);
        }
        let image_url_1x = json.text_at("image_url_1x")?;
        let image_url_2x = json.text_at("image_url_2x")?;
        let image_url_4x = json.text_at("image_url_4x")?;
        let description = json.text_at("description")?;
        let title = json.text_at("title")?;
        let click_action = json.text_at("click_action")?;
        let click_url = match json.get("click_url") {
            None => None,
            Some(Json::Text(text)) => optional_string(text.clone()),
            Some(_) => return Err(Mismatch::WrongType),
        };
        Ok(
            Badge {
                image_url_1x,
                image_url_2x,
                image_url_4x,
                description,
                title,
                click_action,
                click_url,
            },
        )
    }
}

/// Represents a collection of plans: each plan's name with its id, where it
/// has one.
pub type Plans = Table<Option<String>>;

/// Represents a collection of `Emote`s.
pub type Emotes = Vec<Emote>;

/// Represents a collection of `Badge`s.
pub type Badges = Table<Badge>;

/// Contains available resolutions for a Cheermote.
#[derive(Clone, Debug, PartialEq)]
pub struct Cheermote {
    /// 1x Resolution
    pub url_1: String,
    /// 1.5x Resolution
    pub url_1_5: String,
    /// 2x Resolution
    pub url_2: String,
    /// 3x Resolution
    pub url_3: String,
    /// 4x Resolution
    pub url_4: String,
}

/// What a [`Cheermote`] holds.
pub struct CheermoteModel {
    pub url_1: Seq<char>,
    pub url_1_5: Seq<char>,
    pub url_2: Seq<char>,
    pub url_3: Seq<char>,
    pub url_4: Seq<char>,
}

impl DeepView for Cheermote {
    type V = CheermoteModel;

    open spec fn deep_view(&self) -> CheermoteModel {
        CheermoteModel {
            url_1: self.url_1@,
            url_1_5: self.url_1_5@,
            url_2: self.url_2@,
            url_3: self.url_3@,
            url_4: self.url_4@,
        }
    }
}

impl Decode for Cheermote {
    /// An object with the texts `1`, `1.5`, `2`, `3` and `4`.
    open spec fn schema(doc: Doc) -> Result<CheermoteModel, Mismatch> {
        if !(doc is Object) {
            Err(Mismatch::WrongType)
        } else {
            match doc.text_at("1"@) {
                Err(mismatch) => Err(mismatch),
                Ok(url_1) => match doc.text_at("1.5"@) {
                    Err(mismatch) => Err(mismatch),
                    Ok(url_1_5) => match doc.text_at("2"@) {
                        Err(mismatch) => Err(mismatch),
                        Ok(url_2) => match doc.text_at("3"@) {
                            Err(mismatch) => Err(mismatch),
                            Ok(url_3) => match doc.text_at("4"@) {
                                Err(mismatch) => Err(mismatch),
                                Ok(url_4) => Ok(
                                    CheermoteModel { url_1, url_1_5, url_2, url_3, url_4 },
                                ),
                            },
                        },
                    },
                },
            }
        }
    }

    fn from_json(json: &Json) -> (r: Result<Cheermote, Mismatch>) {
        if !json.is_object() {
            return Err(Mismatch::WrongType);
        }
        let url_1 = json.text_at("1")?;
        let url_1_5 = json.text_at("1.5")?;
        let url_2 = json.text_at("2")?;
        let url_3 = json.text_at("3")?;
        let url_4 = json.text_at("4")?;
        Ok(Cheermote { url_1, url_1_5, url_2, url_3, url_4 })
    }
}

/// Represents a collection of `Cheermote`s.
pub type Cheermotes = Table<Cheermote>;

/// Contains everything we know about a channel.
#[derive(Clone, Debug, PartialEq)]
pub struct Channel {
    /// The name of the channel
    pub channel_name: String,
    /// The name that is displayed to users
    pub display_name: String,
    /// The Channel ID
    pub channel_id: String,
    /// The type of channel e.g. partner
    pub broadcaster_type: Option<String>,
    /// Prices and optional IDs as keys and values respectively
    pub plans: Plans,
    /// The emotes which belong to this channel
    pub emotes: Emotes,
    /// The subscriber badges which belong to this channel
    pub subscriber_badges: Option<Badges>,
    /// The bits badges which belong to this channel
    pub bits_badges: Option<Badges>,
    /// The Cheermotes which belong to this channel
    pub cheermotes: Option<Cheermotes>,
    pub base_set_id: String,
}

/// What a [`Channel`] holds. Each table is known by its entries, in their
/// order; `table_of` gives the mapping that they stand for.
pub struct ChannelModel {
    pub channel_name: Seq<char>,
    pub display_name: Seq<char>,
    pub channel_id: Seq<char>,
    pub broadcaster_type: Option<Seq<char>>,
    pub plans: Seq<(Seq<char>, Option<Seq<char>>)>,
    pub emotes: Seq<EmoteModel>,
    pub subscriber_badges: Option<Seq<(Seq<char>, BadgeModel)>>,
    pub bits_badges: Option<Seq<(Seq<char>, BadgeModel)>>,
    pub cheermotes: Option<Seq<(Seq<char>, CheermoteModel)>>,
    pub base_set_id: Seq<char>,
}

impl DeepView for Channel {
    type V = ChannelModel;

    open spec fn deep_view(&self) -> ChannelModel {
        ChannelModel {
            channel_name: self.channel_name@,
            display_name: self.display_name@,
            channel_id: self.channel_id@,
            broadcaster_type: self.broadcaster_type.deep_view(),
            plans: self.plans.deep_view(),
            emotes: self.emotes.deep_view(),
            subscriber_badges: self.subscriber_badges.deep_view(),
            bits_badges: self.bits_badges.deep_view(),
            cheermotes: self.cheermotes.deep_view(),
            base_set_id: self.base_set_id@,
        }
    }
}

/// What the schema of a channel makes of the member `plans`: an object
/// whose values are texts or `null`, entry by entry.
pub open spec fn plans_of(doc: Doc) -> Result<Seq<(Seq<char>, Option<Seq<char>>)>, Mismatch> {
    match doc.at("plans"@) {
        Err(mismatch) => Err(mismatch),
        Ok(found) => Plans::schema(found),
    }
}

/// What the schema of a channel makes of the member `emotes`: an array of
/// emotes.
pub open spec fn emotes_of(doc: Doc) -> Result<Seq<EmoteModel>, Mismatch> {
    match doc.array_at("emotes"@) {
        Err(mismatch) => Err(mismatch),
        Ok(items) => list_of::<Emote>(items),
    }
}

impl Decode for Channel {
    /// An object with the texts `channel_name`, `display_name` and
    /// `channel_id`, the object `plans`, whose values are texts or `null`, the
    /// array `emotes` of emotes, and the text `base_set_id`. The text
    /// `broadcaster_type` and the objects `subscriber_badges`, `bits_badges`,
    /// of badges, and `cheermotes`, of cheermotes, may be missing or `null`.
    open spec fn schema(doc: Doc) -> Result<ChannelModel, Mismatch> {
        if !(doc is Object) {
            Err(Mismatch::WrongType)
        } else {
            match doc.text_at("channel_name"@) {
                Err(mismatch) => Err(mismatch),
                Ok(channel_name) => match doc.text_at("display_name"@) {
                    Err(mismatch) => Err(mismatch),
                    Ok(display_name) => match doc.text_at("channel_id"@) {
                        Err(mismatch) => Err(mismatch),
                        Ok(channel_id) => match doc.optional_text_at("broadcaster_type"@) {
                            Err(mismatch) => Err(mismatch),
                            Ok(broadcaster_type) => match plans_of(doc) {
                                Err(mismatch) => Err(mismatch),
                                Ok(plans) => match emotes_of(doc) {
                                    Err(mismatch) => Err(mismatch),
                                    Ok(emotes) => match optional_of::<Badges>(
                                        doc.optional_at("subscriber_badges"@),
                                    ) {
                                        Err(mismatch) => Err(mismatch),
                                        Ok(subscriber_badges) => match optional_of::<Badges>(
                                            doc.optional_at("bits_badges"@),
                                        ) {
                                            Err(mismatch) => Err(mismatch),
                                            Ok(bits_badges) => match optional_of::<Cheermotes>(
                                                doc.optional_at("cheermotes"@),
                                            ) {
                                                Err(mismatch) => Err(mismatch),
                                                Ok(cheermotes) => match doc.text_at(
                                                    "base_set_id"@,
                                                ) {
                                                    Err(mismatch) => Err(mismatch),
                                                    Ok(base_set_id) => Ok(
                                                        ChannelModel {
                                                            channel_name,
                                                            display_name,
                                                            channel_id,
                                                            broadcaster_type,
                                                            plans,
                                                            emotes,
                                                            subscriber_badges,
                                                            bits_badges,
                                                            cheermotes,
                                                            base_set_id,
                                                        },
                                                    ),
                                                },
                                            },
                                        },
                                    },
                                },
                            },
                        },
                    },
                },
            }
        }
    }

    fn from_json(json: &Json) -> (r: Result<Channel, Mismatch>) {
        if !json.is_object() {
            return Err(Mismatch::WrongType);
        }
        let channel_name = json.text_at("channel_name")?;
        let display_name = json.text_at("display_name")?;
        let channel_id = json.text_at("channel_id")?;
        let broadcaster_type = json.optional_text_at("broadcaster_type")?;
        let plans = Plans::from_json(json.at("plans")?)?;
        let emotes = list::<Emote>(json.array_at("emotes")?)?;
        let subscriber_badges = optional::<Badges>(json.optional_at("subscriber_badges"))?;
        let bits_badges = optional::<Badges>(json.optional_at("bits_badges"))?;
        let cheermotes = optional::<Cheermotes>(json.optional_at("cheermotes"))?;
        let base_set_id = json.text_at("base_set_id")?;
        Ok(
            Channel {
                channel_name,
                display_name,
                channel_id,
                broadcaster_type,
                plans,
                emotes,
                subscriber_badges,
                bits_badges,
                cheermotes,
                base_set_id,
            },
        )
    }
}

/// A table which lets you access a `Channel` via its ID.
pub type Channels = Table<Channel>;

/// Says what became of a request to [`ENDPOINT`]: the text of the document,
/// or the failure of the request.
pub fn download_json(fetched: Fetched) -> (r: Result<String, Failure>)
    ensures
        r == match fetched {
            Fetched::Refused(cause) => Err::<String, Failure>(Failure::Transport(cause)),
            Fetched::Cut(cause) => Err::<String, Failure>(Failure::Io(cause)),
            Fetched::Body(content) => Ok::<String, Failure>(content),
        },
{
    download(fetched)
}

/// Deserialize json into `Channels`: one entry for each member of the
/// document, under the member's name and in the order of the members.
pub fn from_str(json: &str) -> (r: Result<Channels, Failure>)
    ensures
        decoded(json@, r),
{
    decode::<Channels>(json)
}

/// The address of a badge is taken as it stands, but for the empty text,
/// which says that the badge has none.
pub proof fn empty_click_url_is_none(doc: Doc, url: Seq<char>)
    requires
        Badge::schema(doc) is Ok,
        doc.member("click_url"@) == Some(Doc::Text(url)),
    ensures
        url.len() == 0 ==> Badge::schema(doc)->Ok_0.click_url is None,
        url.len() != 0 ==> Badge::schema(doc)->Ok_0.click_url == Some(url),
{
}

/// Whether a document is an object that holds the six texts which every
/// badge has.
pub open spec fn has_badge_texts(doc: Doc) -> bool {
    &&& doc is Object
    &&& doc.text_at("image_url_1x"@) is Ok
    &&& doc.text_at("image_url_2x"@) is Ok
    &&& doc.text_at("image_url_4x"@) is Ok
    &&& doc.text_at("description"@) is Ok
    &&& doc.text_at("title"@) is Ok
    &&& doc.text_at("click_action"@) is Ok
}

/// A badge need not say where a click leads: a document with the six texts
/// and without `click_url` is a badge, and that badge has no address.
pub proof fn click_url_may_be_missing(doc: Doc)
    requires
        has_badge_texts(doc),
        doc.member("click_url"@) is None,
    ensures
        Badge::schema(doc) is Ok,
        Badge::schema(doc)->Ok_0.click_url is None,
{
}

/// A document is a badge exactly if it holds the six texts and its
/// `click_url`, where it has one, is a text. The badge then has the address
/// that `click_url_of` gives.
pub proof fn badge_is_decoded(doc: Doc)
    ensures
        Badge::schema(doc) is Ok <==> has_badge_texts(doc) && (doc.member("click_url"@) is None
            || doc.member("click_url"@)->Some_0 is Text),
        Badge::schema(doc) is Ok ==> click_url_of(doc) == Ok::<Option<Seq<char>>, Mismatch>(
            Badge::schema(doc)->Ok_0.click_url,
        ),
{
}

/// A document that lacks `image_url_1x`, `image_url_2x`, `image_url_4x`,
/// `description`, `title` or `click_action` is no badge.
pub proof fn badge_missing_field_fails(doc: Doc, key: Seq<char>)
    requires
        key == "image_url_1x"@ || key == "image_url_2x"@ || key == "image_url_4x"@ || key
            == "description"@ || key == "title"@ || key == "click_action"@,
        doc.member(key) is None,
    ensures
        Badge::schema(doc) is Err,
{
}

/// A document that lacks one of the five resolutions is no cheermote.
pub proof fn missing_tier_fails(doc: Doc, key: Seq<char>)
    requires
        key == "1"@ || key == "1.5"@ || key == "2"@ || key == "3"@ || key == "4"@,
        doc.member(key) is None,
    ensures
        Cheermote::schema(doc) is Err,
{
}

/// A document that lacks `channel_name`, `display_name`, `channel_id`,
/// `plans`, `emotes` or `base_set_id` is no channel.
pub proof fn missing_field_fails(doc: Doc, key: Seq<char>)
    requires
        key == "channel_name"@ || key == "display_name"@ || key == "channel_id"@ || key
            == "plans"@ || key == "emotes"@ || key == "base_set_id"@,
        doc.member(key) is None,
    ensures
        Channel::schema(doc) is Err,
{
}

} // verus!
