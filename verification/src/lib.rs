//! Typed records for the emote lists of twitchemotes.com and BetterTTV.
//!
//! Each service publishes its emotes as JSON documents. This crate says which
//! documents are well formed for each list and turns such a document into
//! records. It sends no request itself: a caller fetches an address that the
//! crate names and hands back what the transport answered.
//!
//! A record owns its texts: they are copied out of the document, so a record
//! may outlive the text that it was decoded from.

pub mod bttv;
pub mod error;
pub mod json;
pub mod schema;
pub mod table;
pub mod ttv;
