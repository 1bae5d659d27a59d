use omegle_rs::status::OmegleStatus;
use omegle_rs::types::chat_server::ChatServer;
use omegle_rs::types::check_server::CheckServer;
use omegle_rs::types::error::DecodeError;
use omegle_rs::types::json::JsonValue;

fn jstr(x: &str) -> JsonValue {
    JsonValue::Str(x.to_string())
}

fn entry(key: &str, value: JsonValue) -> (String, JsonValue) {
    (key.to_string(), value)
}

fn full_payload(servers: JsonValue) -> JsonValue {
    JsonValue::Obj(vec![
        entry("count", JsonValue::UInt(34658)),
        entry(
            "antinudeservers",
            JsonValue::Arr(vec![
                jstr("waw2.omegle.com"),
                jstr("waw4.omegle.com"),
                jstr("waw1.omegle.com"),
                jstr("waw3.omegle.com"),
            ]),
        ),
        entry("spyQueueTime", JsonValue::NonUInt),
        entry("rtmfp", jstr("rtmfp://p2p.rtmfp.net")),
        entry("antinudepercent", JsonValue::NonUInt),
        entry("spyeeQueueTime", JsonValue::NonUInt),
        entry("timestamp", JsonValue::NonUInt),
        entry("servers", servers),
    ])
}

#[test]
fn valid_response_text_should_give_status() {
    let payload = full_payload(JsonValue::Arr(vec![jstr("front20"), jstr("front5")]));
    let status = OmegleStatus::decode(&payload).unwrap();
    let expected = OmegleStatus::new(
        34658,
        vec![ChatServer::from(20u8), ChatServer::from(5u8)],
        vec![CheckServer(2), CheckServer(4), CheckServer(1), CheckServer(3)],
    )
    .unwrap();
    assert_eq!(status, expected);
    assert_eq!(status.get_count(), 34658);
    assert_eq!(status.get_chat_server(), ChatServer::from(20u8));
    assert_eq!(status.get_check_server(), CheckServer(2));
}

#[test]
fn no_servers_given_should_error() {
    let payload = full_payload(JsonValue::Arr(vec![]));
    let err = OmegleStatus::decode(&payload).unwrap_err();
    assert!(matches!(err, DecodeError::StatusServersEmpty));
}

#[test]
fn invalid_response_text_should_error() {
    let err = OmegleStatus::decode(&jstr("bad request")).unwrap_err();
    assert!(matches!(err, DecodeError::StatusNotObject));
}

#[test]
fn missing_or_malformed_fields_error() {
    let no_count = JsonValue::Obj(vec![
        entry("servers", JsonValue::Arr(vec![jstr("front1")])),
        entry("antinudeservers", JsonValue::Arr(vec![jstr("waw1.omegle.com")])),
    ]);
    assert!(matches!(
        OmegleStatus::decode(&no_count),
        Err(DecodeError::StatusCount)
    ));

    let bad_count = JsonValue::Obj(vec![
        entry("count", JsonValue::NonUInt),
        entry("servers", JsonValue::Arr(vec![jstr("front1")])),
        entry("antinudeservers", JsonValue::Arr(vec![jstr("waw1.omegle.com")])),
    ]);
    assert!(matches!(
        OmegleStatus::decode(&bad_count),
        Err(DecodeError::StatusCount)
    ));

    let no_servers = JsonValue::Obj(vec![
        entry("count", JsonValue::UInt(1)),
        entry("antinudeservers", JsonValue::Arr(vec![jstr("waw1.omegle.com")])),
    ]);
    assert!(matches!(
        OmegleStatus::decode(&no_servers),
        Err(DecodeError::StatusServers)
    ));

    let no_checks = JsonValue::Obj(vec![
        entry("count", JsonValue::UInt(1)),
        entry("servers", JsonValue::Arr(vec![jstr("front1")])),
    ]);
    assert!(matches!(
        OmegleStatus::decode(&no_checks),
        Err(DecodeError::StatusCheckServers)
    ));

    let empty_checks = JsonValue::Obj(vec![
        entry("count", JsonValue::UInt(1)),
        entry("servers", JsonValue::Arr(vec![jstr("front1")])),
        entry("antinudeservers", JsonValue::Arr(vec![])),
    ]);
    assert!(matches!(
        OmegleStatus::decode(&empty_checks),
        Err(DecodeError::StatusCheckServersEmpty)
    ));
}

#[test]
fn one_malformed_entry_invalidates_the_whole_status() {
    let payload = full_payload(JsonValue::Arr(vec![jstr("front20"), jstr("front999")]));
    assert!(matches!(
        OmegleStatus::decode(&payload),
        Err(DecodeError::ServerId)
    ));

    let payload = full_payload(JsonValue::Arr(vec![jstr("front20"), JsonValue::UInt(5)]));
    assert!(matches!(
        OmegleStatus::decode(&payload),
        Err(DecodeError::StatusServerEntry)
    ));

    let bad_check = JsonValue::Obj(vec![
        entry("count", JsonValue::UInt(1)),
        entry("servers", JsonValue::Arr(vec![jstr("front1")])),
        entry(
            "antinudeservers",
            JsonValue::Arr(vec![jstr("waw1.omegle.com"), jstr("nope")]),
        ),
    ]);
    assert!(matches!(
        OmegleStatus::decode(&bad_check),
        Err(DecodeError::CheckServerFormat)
    ));
}

#[test]
fn constructor_enforces_the_non_empty_invariant() {
    assert!(OmegleStatus::new(0, vec![], vec![CheckServer(1)]).is_err());
    assert!(OmegleStatus::new(0, vec![ChatServer::from(1u8)], vec![]).is_err());
    assert!(OmegleStatus::new(0, vec![ChatServer::from(1u8)], vec![CheckServer(12)]).is_err());
    assert!(OmegleStatus::new(0, vec![ChatServer::from(1u8)], vec![CheckServer(9)]).is_ok());
}
