use omegle_rs::server::Server as PlainServer;
use omegle_rs::types::chat_server::ChatServer;
use omegle_rs::types::check_server::CheckServer;
use omegle_rs::types::error::DecodeError;
use omegle_rs::types::server::Server;

#[test]
fn chat_server_can_deserialize_and_serialize_valid_string() {
    let server = ChatServer::from(15u8);
    assert_eq!(ChatServer::decode("front15").unwrap(), server);
    assert_eq!(server.encode(), "front15");
}

#[test]
fn chat_server_can_not_deserialize_string_with_invalid_start() {
    let err = ChatServer::decode("fromt15").unwrap_err();
    assert_eq!(err.message(), "expected server string to start with 'front'");
}

#[test]
fn chat_server_can_not_deserialize_string_with_no_id() {
    let err = ChatServer::decode("front").unwrap_err();
    assert_eq!(
        err.message(),
        "expected server string that starts with 'front' to be followed by at least one char"
    );
}

#[test]
fn chat_server_can_not_deserialize_string_with_invalid_id() {
    let err = ChatServer::decode("front155555").unwrap_err();
    assert_eq!(
        err.message(),
        "expected server string that starts with 'front' to be followed by a u8"
    );
}

#[test]
fn chat_server_rejects_numeral_just_out_of_range() {
    assert!(matches!(
        ChatServer::decode("front256"),
        Err(DecodeError::ServerId)
    ));
    assert!(ChatServer::decode("front255").is_ok());
}

#[test]
fn chat_server_decodes_every_canonical_numeral() {
    let mut n: u16 = 0;
    while n <= 255 {
        let encoded = ChatServer::from(n as u8).encode();
        let decoded = ChatServer::decode(&encoded).unwrap();
        assert_eq!(decoded.id_number(), n as u8);
        n += 1;
    }
}

#[test]
fn chat_server_accepts_leading_zeros_but_encodes_canonically() {
    let decoded = ChatServer::decode("front007").unwrap();
    assert_eq!(decoded.id_number(), 7);
    assert_eq!(decoded.encode(), "front7");
}

#[test]
fn can_deserialize_valid_string() {
    let expected_server = CheckServer(1);
    assert_eq!(CheckServer::decode("waw1.omegle.com").unwrap(), expected_server);
}

#[test]
fn cant_deserialize_short_string() {
    let err = CheckServer::decode("waw.omegle.com").unwrap_err();
    assert_eq!(
        err.message(),
        "expected check server string to start with 'waw' and end with '.omegle.com', and to be 15 chars long"
    );
}

#[test]
fn cant_deserialize_incorrect_domain() {
    let err = CheckServer::decode("www1.omegle.com").unwrap_err();
    assert_eq!(
        err.message(),
        "expected check server string to start with 'waw' and end with '.omegle.com', and to be 15 chars long"
    );
}

#[test]
fn check_server_rejects_non_digit_id() {
    assert!(matches!(
        CheckServer::decode("wawX.omegle.com"),
        Err(DecodeError::CheckServerId)
    ));
}

#[test]
fn check_server_round_trips_every_digit() {
    let mut d: u8 = 0;
    while d <= 9 {
        let encoded = CheckServer(d).encode();
        assert_eq!(CheckServer::decode(&encoded).unwrap(), CheckServer(d));
        d += 1;
    }
}

#[test]
fn server_can_deserialize_and_serialize_valid_string() {
    let server = Server::from(15u8);
    assert_eq!(Server::decode("front15").unwrap(), server);
    assert_eq!(server.encode(), "front15");
}

#[test]
fn server_can_not_deserialize_string_with_invalid_start() {
    let err = Server::decode("fromt15").unwrap_err();
    assert_eq!(err.message(), "expected server string to start with 'front'");
}

#[test]
fn server_can_not_deserialize_string_with_no_id() {
    let err = Server::decode("front").unwrap_err();
    assert_eq!(
        err.message(),
        "expected server string that starts with 'front' to be followed by at least one char"
    );
}

#[test]
fn server_can_not_deserialize_string_with_invalid_id() {
    let err = Server::decode("front155555").unwrap_err();
    assert_eq!(
        err.message(),
        "expected server string that starts with 'front' to be followed by a u8"
    );
}

#[test]
fn plain_server_reads_id_from_server_string() {
    assert_eq!(PlainServer::get_id_from_server_string("front42").unwrap(), 42);
    assert!(PlainServer::get_id_from_server_string("front").is_err());
    assert!(PlainServer::get_id_from_server_string("front256").is_err());
    assert!(PlainServer::get_id_from_server_string("web42").is_err());
    assert_eq!(PlainServer::from(42u8).to_server_string(), "front42");
}
