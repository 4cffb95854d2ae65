//! Global Emote API.

use vstd::prelude::*;
use crate::error::Failure;
use crate::schema::{decode, decoded};
use crate::table::Table;
use crate::ttv::{download, Emote, Fetched};

verus! {

/// The address that answers with the global emotes.
pub const ENDPOINT: &'static str = "https://twitchemotes.com/api_cache/v3/global.json";

/// A table which lets you access an `Emote` via its name.
pub type Emotes = Table<Emote>;

/// Says what became of a request to [`ENDPOINT`]: the text of the document,
/// or the failure of the request.
pub fn download_json(fetched: Fetched) -> (r: Result<String, Failure>)
    ensures
        r == match fetched {
            Fetched::Refused(cause) => Err::<String, Failure>(Failure::Transport(cause)),
            Fetched::Cut(cause) => Err::<String, Failure>(Failure::Io(cause)),
            Fetched::Body(content) => Ok::<String, Failure>(content),
        },
{
    download(fetched)
}

/// Deserialize json into `Emotes`: one entry for each member of the
/// document, under the member's name and in the order of the members.
pub fn from_str(json: &str) -> (r: Result<Emotes, Failure>)
    ensures
        decoded(json@, r),
{
    decode::<Emotes>(json)
}

} // verus!
