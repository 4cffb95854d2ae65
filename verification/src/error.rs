//! The one failure type of the crate, and the causes it carries.

use vstd::prelude::*;

verus! {

/// `std::io::Error`, carried through as a cause and never looked into.
#[verifier::external_type_specification]
#[verifier::external_body]
pub struct ExIoError(std::io::Error);

/// `serde_json::Error`, carried through as a cause and never looked into.
#[verifier::external_type_specification]
#[verifier::external_body]
pub struct ExSyntaxError(serde_json::Error);

/// `reqwest::Error`, carried through as a cause and never looked into.
#[verifier::external_type_specification]
#[verifier::external_body]
pub struct ExTransportError(reqwest::Error);

/// Why a JSON document does not fit the schema it was decoded against.
#[derive(Clone, Copy, Debug, PartialEq, Eq, Structural)]
pub enum Mismatch {
    /// An object lacks a key that the schema requires.
    MissingField,
    /// A value has another JSON type than the schema asks for at its place.
    WrongType,
    /// A number stands where the schema asks for a 32-bit signed integer, and
    /// is not one.
    BadNumber,
}

/// Why a text could not be decoded.
#[derive(Debug)]
pub enum DecodeError {
    /// The text is not JSON.
    Syntax(serde_json::Error),
    /// The text is JSON, but not a document of the expected shape.
    Schema(Mismatch),
}

/// Everything that can go wrong between asking a service and holding its
/// records. Each variant keeps the cause it was made from.
#[derive(Debug)]
pub enum Failure {
    /// A response body could not be read.
    Io(std::io::Error),
    /// A text could not be decoded.
    Decode(DecodeError),
    /// The transport could not complete a request.
    Transport(reqwest::Error),
}

impl From<std::io::Error> for Failure {
    fn from(cause: std::io::Error) -> (failure: Failure) {
        Failure::Io(cause)
    }
}

impl vstd::std_specs::convert::FromSpecImpl<std::io::Error> for Failure {
    open spec fn obeys_from_spec() -> bool {
        true
    }

    open spec fn from_spec(cause: std::io::Error) -> Failure {
        Failure::Io(cause)
    }
}

impl From<serde_json::Error> for Failure {
    fn from(cause: serde_json::Error) -> (failure: Failure) {
        Failure::Decode(DecodeError::Syntax(cause))
    }
}

impl vstd::std_specs::convert::FromSpecImpl<serde_json::Error> for Failure {
    open spec fn obeys_from_spec() -> bool {
        true
    }

    open spec fn from_spec(cause: serde_json::Error) -> Failure {
        Failure::Decode(DecodeError::Syntax(cause))
    }
}

impl From<reqwest::Error> for Failure {
    fn from(cause: reqwest::Error) -> (failure: Failure) {
        Failure::Transport(cause)
    }
}

impl vstd::std_specs::convert::FromSpecImpl<reqwest::Error> for Failure {
    open spec fn obeys_from_spec() -> bool {
        true
    }

    open spec fn from_spec(cause: reqwest::Error) -> Failure {
        Failure::Transport(cause)
    }
}

impl From<Mismatch> for Failure {
    fn from(mismatch: Mismatch) -> (failure: Failure) {
        Failure::Decode(DecodeError::Schema(mismatch))
    }
}

impl vstd::std_specs::convert::FromSpecImpl<Mismatch> for Failure {
    open spec fn obeys_from_spec() -> bool {
        true
    }

    open spec fn from_spec(mismatch: Mismatch) -> Failure {
        Failure::Decode(DecodeError::Schema(mismatch))
    }
}

} // verus!
