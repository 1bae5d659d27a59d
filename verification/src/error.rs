//! The first iteration of the library's error type, kept for the callers of
//! the plain identifier helpers.

use vstd::prelude::*;
use vstd::string::*;

verus! {

/// What went wrong while talking to the service or reading its strings.
#[derive(Debug)]
pub enum OmegleLibError {
    /// The service could not be reached.
    ConnectionError,
    /// The response could not be classified at all.
    CouldNotDetermineResponse,
    /// A response body that the JSON layer refused, with its own text.
    DeserializationError(String),
    /// An identifier string that does not follow the convention.
    InvalidID,
    /// A server string that does not follow the "front{n}" convention.
    InvalidServerString,
}

/// The diagnostic text of each error.
pub open spec fn error_text(e: OmegleLibError) -> Seq<char> {
    match e {
        OmegleLibError::ConnectionError => "cannot connect to omegle"@,
        OmegleLibError::CouldNotDetermineResponse => "unexpected response: could not determine response"@,
        OmegleLibError::DeserializationError(detail) => "error deserializing response from omegle: "@
            + detail@,
        OmegleLibError::InvalidID => "invalid id: must not contain 'I', 'O', '1', '0'"@,
        OmegleLibError::InvalidServerString => "the given server string was invalid"@,
    }
}

impl OmegleLibError {
    /// The diagnostic text, for the caller to log verbatim.
    pub fn message(&self) -> (r: String)
        ensures
            r@ == error_text(*self),
    {
        match self {
            OmegleLibError::ConnectionError => String::from_str("cannot connect to omegle"),
            OmegleLibError::CouldNotDetermineResponse => String::from_str(
                "unexpected response: could not determine response",
            ),
            OmegleLibError::DeserializationError(detail) => {
                let mut out = String::from_str("error deserializing response from omegle: ");
                out.append(detail.as_str());
                out
            },
            OmegleLibError::InvalidID => String::from_str(
                "invalid id: must not contain 'I', 'O', '1', '0'",
            ),
            OmegleLibError::InvalidServerString => String::from_str(
                "the given server string was invalid",
            ),
        }
    }
}

} // verus!
