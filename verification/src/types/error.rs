//! Errors of the protocol and session layer: what a decode rejected, or how
//! the service answered an action.

use vstd::prelude::*;
use vstd::string::*;

verus! {

/// Why decoding a wire string or a poll payload was rejected. Each variant
/// carries enough to diagnose the failure without re-running the request.
#[derive(Debug, Clone)]
pub enum DecodeError {
    /// A front-server string did not start with "front".
    ServerPrefix,
    /// A front-server string was bare "front" with no numeral.
    ServerNoId,
    /// The characters after "front" were not a numeral fitting `u8`.
    ServerId,
    /// A verification-server string did not have the "waw{d}.omegle.com" shape.
    CheckServerFormat,
    /// The character after "waw" was not a decimal digit.
    CheckServerId,
    /// A client identifier was shorter than its 30-character token.
    ClientIdTooShort,
    /// A client identifier did not start with a recognized server-type tag.
    ClientIdTag,
    /// A client identifier had no room for a numeral between tag and token.
    ClientIdNoNumeral,
    /// The characters between tag and token were not a numeral fitting `u8`.
    ClientIdNumeral,
    /// A poll response was not a list of events.
    EventsNotList,
    /// A poll response carried no event at all.
    EventsEmpty,
    /// A single event was not an array.
    EventNotArray,
    /// A single event was an empty array, with no tag to dispatch on.
    EmptyEventArray,
    /// A single event's first element was not a string tag.
    EventTagNotString,
    /// An event tag outside the accepted vocabulary, carried verbatim.
    UnknownVariant(String),
    /// An event carried more elements than its tag's payload allows.
    ExtraPayload,
    /// "statusInfo" was not followed by a status object.
    PayloadStatus,
    /// "count" was not followed by an unsigned number.
    PayloadCount,
    /// "commonLikes" was not followed by a non-empty list of strings.
    PayloadCommonLikes,
    /// "serverMessage" was not followed by a string.
    PayloadServerMessage,
    /// "identDigests" was not followed by a string.
    PayloadIdentDigests,
    /// "error" was not followed by a string.
    PayloadError,
    /// "gotMessage" was not followed by a string.
    PayloadMessage,
    /// A status payload was not a JSON object.
    StatusNotObject,
    /// A status payload had no usable `count` field.
    StatusCount,
    /// A status payload had no usable `servers` list.
    StatusServers,
    /// A status payload's `servers` list was empty.
    StatusServersEmpty,
    /// An entry of `servers` was not a string.
    StatusServerEntry,
    /// An entry of `antinudeservers` was not a string.
    StatusCheckServerEntry,
    /// A status payload had no usable `antinudeservers` list.
    StatusCheckServers,
    /// A status payload's `antinudeservers` list was empty.
    StatusCheckServersEmpty,
}

/// The diagnostic text of each decode error.
pub open spec fn decode_error_text(e: DecodeError) -> Seq<char> {
    match e {
        DecodeError::ServerPrefix => "expected server string to start with 'front'"@,
        DecodeError::ServerNoId => "expected server string that starts with 'front' to be followed by at least one char"@,
        DecodeError::ServerId => "expected server string that starts with 'front' to be followed by a u8"@,
        DecodeError::CheckServerFormat => "expected check server string to start with 'waw' and end with '.omegle.com', and to be 15 chars long"@,
        DecodeError::CheckServerId => "expected check server string that starts with 'waw' to be followed by a u8"@,
        DecodeError::ClientIdTooShort => "expected client id string to be at least 30 chars"@,
        DecodeError::ClientIdTag => "expected client id string to start with 'central' or 'shard' or 'spike'"@,
        DecodeError::ClientIdNoNumeral => "expected client id string to have at least one char before ':' and the user id"@,
        DecodeError::ClientIdNumeral => "expected client id string to contain a valid u8 after 'central' or 'shard' or 'spike'"@,
        DecodeError::EventsNotList => "expected response to be a list of events"@,
        DecodeError::EventsEmpty => "expected response to hold at least one event"@,
        DecodeError::EventNotArray => "expected event to be an array"@,
        DecodeError::EmptyEventArray => "Empty event array"@,
        DecodeError::EventTagNotString => "expected event array to start with a string tag"@,
        DecodeError::UnknownVariant(tag) => "unknown variant `"@ + tag@
            + "`, expected one of `waiting`, `connected`, `statusInfo`, `count`, `commonLikes`, `serverMessage`, `identDigests`, `error`, `connectionDied`, `antinudeBanned`, `typing`, `stoppedTyping`, `gotMessage`, `strangerDisconnected`"@,
        DecodeError::ExtraPayload => "expected event array to end after its payload"@,
        DecodeError::PayloadStatus => "expected status info to be followed by status object"@,
        DecodeError::PayloadCount => "expected count to be followed by a number"@,
        DecodeError::PayloadCommonLikes => "expected commonLikes to be followed by a non-empty list of strings"@,
        DecodeError::PayloadServerMessage => "expected serverMessage to be followed by a string"@,
        DecodeError::PayloadIdentDigests => "expected identDigests to be followed by a string"@,
        DecodeError::PayloadError => "expected error to be followed by a string"@,
        DecodeError::PayloadMessage => "expected gotMessage to be followed by a string"@,
        DecodeError::StatusNotObject => "expected status payload to be an object"@,
        DecodeError::StatusCount => "expected status object to hold an unsigned `count`"@,
        DecodeError::StatusServers => "expected status object to hold a list `servers`"@,
        DecodeError::StatusServersEmpty => "expected `servers` to be a non-empty list"@,
        DecodeError::StatusServerEntry => "expected each entry of `servers` to be a string"@,
        DecodeError::StatusCheckServerEntry => "expected each entry of `antinudeservers` to be a string"@,
        DecodeError::StatusCheckServers => "expected status object to hold a list `antinudeservers`"@,
        DecodeError::StatusCheckServersEmpty => "expected `antinudeservers` to be a non-empty list"@,
    }
}

impl DecodeError {
    /// The diagnostic text, for the caller to log verbatim.
    pub fn message(&self) -> (r: String)
        ensures
            r@ == decode_error_text(*self),
    {
        match self {
            DecodeError::ServerPrefix => String::from_str(
                "expected server string to start with 'front'",
            ),
            DecodeError::ServerNoId => String::from_str(
                "expected server string that starts with 'front' to be followed by at least one char",
            ),
            DecodeError::ServerId => String::from_str(
                "expected server string that starts with 'front' to be followed by a u8",
            ),
            DecodeError::CheckServerFormat => String::from_str(
                "expected check server string to start with 'waw' and end with '.omegle.com', and to be 15 chars long",
            ),
            DecodeError::CheckServerId => String::from_str(
                "expected check server string that starts with 'waw' to be followed by a u8",
            ),
            DecodeError::ClientIdTooShort => String::from_str(
                "expected client id string to be at least 30 chars",
            ),
            DecodeError::ClientIdTag => String::from_str(
                "expected client id string to start with 'central' or 'shard' or 'spike'",
            ),
            DecodeError::ClientIdNoNumeral => String::from_str(
                "expected client id string to have at least one char before ':' and the user id",
            ),
            DecodeError::ClientIdNumeral => String::from_str(
                "expected client id string to contain a valid u8 after 'central' or 'shard' or 'spike'",
            ),
            DecodeError::EventsNotList => String::from_str(
                "expected response to be a list of events",
            ),
            DecodeError::EventsEmpty => String::from_str(
                "expected response to hold at least one event",
            ),
            DecodeError::EventNotArray => String::from_str("expected event to be an array"),
            DecodeError::EmptyEventArray => String::from_str("Empty event array"),
            DecodeError::EventTagNotString => String::from_str(
                "expected event array to start with a string tag",
            ),
            DecodeError::UnknownVariant(tag) => {
                let mut out = String::from_str("unknown variant `");
                out.append(tag.as_str());
                out.append(
                    "`, expected one of `waiting`, `connected`, `statusInfo`, `count`, `commonLikes`, `serverMessage`, `identDigests`, `error`, `connectionDied`, `antinudeBanned`, `typing`, `stoppedTyping`, `gotMessage`, `strangerDisconnected`",
                );
                out
            },
            DecodeError::ExtraPayload => String::from_str(
                "expected event array to end after its payload",
            ),
            DecodeError::PayloadStatus => String::from_str(
                "expected status info to be followed by status object",
            ),
            DecodeError::PayloadCount => String::from_str(
                "expected count to be followed by a number",
            ),
            DecodeError::PayloadCommonLikes => String::from_str(
                "expected commonLikes to be followed by a non-empty list of strings",
            ),
            DecodeError::PayloadServerMessage => String::from_str(
                "expected serverMessage to be followed by a string",
            ),
            DecodeError::PayloadIdentDigests => String::from_str(
                "expected identDigests to be followed by a string",
            ),
            DecodeError::PayloadError => String::from_str(
                "expected error to be followed by a string",
            ),
            DecodeError::PayloadMessage => String::from_str(
                "expected gotMessage to be followed by a string",
            ),
            DecodeError::StatusNotObject => String::from_str(
                "expected status payload to be an object",
            ),
            DecodeError::StatusCount => String::from_str(
                "expected status object to hold an unsigned `count`",
            ),
            DecodeError::StatusServers => String::from_str(
                "expected status object to hold a list `servers`",
            ),
            DecodeError::StatusServersEmpty => String::from_str(
                "expected `servers` to be a non-empty list",
            ),
            DecodeError::StatusServerEntry => String::from_str(
                "expected each entry of `servers` to be a string",
            ),
            DecodeError::StatusCheckServerEntry => String::from_str(
                "expected each entry of `antinudeservers` to be a string",
            ),
            DecodeError::StatusCheckServers => String::from_str(
                "expected status object to hold a list `antinudeservers`",
            ),
            DecodeError::StatusCheckServersEmpty => String::from_str(
                "expected `antinudeservers` to be a non-empty list",
            ),
        }
    }
}

/// The library's top error: a malformed identifier, a transport failure
/// reported by the caller's client, or an action the service refused.
#[derive(Debug, Clone)]
pub enum OmegleLibError {
    /// An identifier string that does not follow the convention.
    InvalidID,
    /// The service could not be reached; carries the transport's own text.
    ConnectionError(String),
    /// An action response other than the success token; carries the raw body.
    OmegleError(String),
}

/// The diagnostic text of each library error.
pub open spec fn omegle_lib_error_text(e: OmegleLibError) -> Seq<char> {
    match e {
        OmegleLibError::InvalidID => "invalid id: must not contain 'I', 'O', '1', '0'"@,
        OmegleLibError::ConnectionError(detail) => detail@,
        OmegleLibError::OmegleError(resp) => "omegle server responded with '"@ + resp@ + "'"@,
    }
}

impl OmegleLibError {
    /// The diagnostic text, for the caller to log verbatim.
    pub fn message(&self) -> (r: String)
        ensures
            r@ == omegle_lib_error_text(*self),
    {
        match self {
            OmegleLibError::InvalidID => String::from_str(
                "invalid id: must not contain 'I', 'O', '1', '0'",
            ),
            OmegleLibError::ConnectionError(detail) => detail.clone(),
            OmegleLibError::OmegleError(resp) => {
                let mut out = String::from_str("omegle server responded with '");
                out.append(resp.as_str());
                out.append("'");
                out
            },
        }
    }
}

} // verus!
