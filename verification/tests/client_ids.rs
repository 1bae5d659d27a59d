use omegle_rs::types::client_id::{ClientID, ServerType};
use omegle_rs::types::error::DecodeError;

#[test]
fn can_deserialize_and_serialize_valid_central_string() {
    let raw = "central3:aaaaaaaaaaaaaaaaaaaaaaaaaaaaaa";
    let client_id = ClientID::decode(raw).unwrap();
    assert_eq!(client_id.server_type(), ServerType::Central);
    assert_eq!(client_id.server_id(), 3);
    assert_eq!(client_id.encode(), raw);
}

#[test]
fn can_deserialize_and_serialize_valid_shard_string() {
    let raw = "shard3:aaaaaaaaaaaaaaaaaaaaaaaaaaaaaa";
    let client_id = ClientID::decode(raw).unwrap();
    assert_eq!(client_id.server_type(), ServerType::Shard);
    assert_eq!(client_id.server_id(), 3);
    assert_eq!(client_id.encode(), raw);
}

#[test]
fn client_id_can_not_deserialize_string_with_invalid_start() {
    let err = ClientID::decode("sardd15:aaaaaaaaaaaaaaaaaaaaaaaaaaaaaa").unwrap_err();
    assert_eq!(
        err.message(),
        "expected client id string to start with 'central' or 'shard' or 'spike'"
    );
}

#[test]
fn can_not_deserialize_string_less_than_thirty_chars() {
    let err = ClientID::decode("central").unwrap_err();
    assert_eq!(err.message(), "expected client id string to be at least 30 chars");
}

#[test]
fn can_not_deserialize_central_string_with_no_id() {
    let err = ClientID::decode("central:aaaaaaaaaaaaaaaaaaaaaaaaaaaaaa").unwrap_err();
    assert_eq!(
        err.message(),
        "expected client id string to contain a valid u8 after 'central' or 'shard' or 'spike'"
    );
}

#[test]
fn can_not_deserialize_shard_string_with_no_id() {
    let err = ClientID::decode("shard:aaaaaaaaaaaaaaaaaaaaaaaaaaaaaa").unwrap_err();
    assert_eq!(
        err.message(),
        "expected client id string to contain a valid u8 after 'central' or 'shard' or 'spike'"
    );
}

#[test]
fn client_id_can_not_deserialize_string_with_invalid_id() {
    let err = ClientID::decode("central155555:aaaaaaaaaaaaaaaaaaaaaaaaaaaaaa").unwrap_err();
    assert_eq!(
        err.message(),
        "expected client id string to contain a valid u8 after 'central' or 'shard' or 'spike'"
    );
}

#[test]
fn decodes_valid_spike_string() {
    let raw = "spike200:aaaaaaaaaabbbbbbbbbbcccccccccc";
    let client_id = ClientID::decode(raw).unwrap();
    assert_eq!(client_id.server_type(), ServerType::Spike);
    assert_eq!(client_id.server_id(), 200);
    assert_eq!(client_id.encode(), raw);
}

#[test]
fn rejects_tagged_string_with_no_room_for_numeral() {
    // 32 characters starting with "central": too short for a numeral
    // segment before the 30-character token.
    let err = ClientID::decode("centralaaaaaaaaaabbbbbbbbbbcccccc").unwrap_err();
    assert!(matches!(err, DecodeError::ClientIdNoNumeral));
}
