use omegle_rs::status::OmegleStatus;
use omegle_rs::types::chat_event::{decode_events, ChatEvent};
use omegle_rs::types::chat_server::ChatServer;
use omegle_rs::types::check_server::CheckServer;
use omegle_rs::types::error::DecodeError;
use omegle_rs::types::json::JsonValue;

fn jstr(x: &str) -> JsonValue {
    JsonValue::Str(x.to_string())
}

fn entry(key: &str, value: JsonValue) -> (String, JsonValue) {
    (key.to_string(), value)
}

#[test]
fn can_deserialize_single_event() {
    // Response: [["typing"]]
    let response = JsonValue::Arr(vec![JsonValue::Arr(vec![jstr("typing")])]);
    let events = decode_events(&response).unwrap();
    assert_eq!(events, vec![ChatEvent::StartedTyping]);
}

#[test]
fn can_deserialize_multi_event() {
    // Response: [["connected"], ["commonLikes", ["books"]],
    //            ["identDigests", "..."]]
    let digests = "33eddfe1387518a2233a77cbbfce6a58,f816c928bf6598357d20977bfffe2052,9e533b0b6f3397b194c193e717703ed3,d5526b7d44ed36f62d05a939132ce755";
    let response = JsonValue::Arr(vec![
        JsonValue::Arr(vec![jstr("connected")]),
        JsonValue::Arr(vec![jstr("commonLikes"), JsonValue::Arr(vec![jstr("books")])]),
        JsonValue::Arr(vec![jstr("identDigests"), jstr(digests)]),
    ]);
    let events = decode_events(&response).unwrap();
    let expected = vec![
        ChatEvent::Connected,
        ChatEvent::CommonLikes(vec![String::from("books")]),
        ChatEvent::IdentDigests(String::from(digests)),
    ];
    assert_eq!(events, expected);
}

#[test]
fn can_deserialize_status_info_event() {
    let status_payload = JsonValue::Obj(vec![
        entry("count", JsonValue::UInt(45148)),
        entry(
            "antinudeservers",
            JsonValue::Arr(vec![
                jstr("waw3.omegle.com"),
                jstr("waw1.omegle.com"),
                jstr("waw4.omegle.com"),
                jstr("waw2.omegle.com"),
            ]),
        ),
        entry("spyQueueTime", JsonValue::NonUInt),
        entry("rtmfp", jstr("rtmfp://p2p.rtmfp.net")),
        entry("antinudepercent", JsonValue::NonUInt),
        entry("spyeeQueueTime", JsonValue::NonUInt),
        entry("timestamp", JsonValue::NonUInt),
        entry(
            "servers",
            JsonValue::Arr(vec![
                jstr("front26"),
                jstr("front20"),
                jstr("front2"),
                jstr("front1"),
                jstr("front45"),
                jstr("front39"),
                jstr("front28"),
                jstr("front15"),
                jstr("front46"),
                jstr("front48"),
                jstr("front40"),
                jstr("front47"),
                jstr("front23"),
                jstr("front27"),
            ]),
        ),
    ]);
    let response = JsonValue::Arr(vec![JsonValue::Arr(vec![jstr("statusInfo"), status_payload])]);
    let events = decode_events(&response).unwrap();

    let expected_status = OmegleStatus::new(
        45148,
        vec![
            ChatServer::from(26u8),
            ChatServer::from(20u8),
            ChatServer::from(2u8),
            ChatServer::from(1u8),
            ChatServer::from(45u8),
            ChatServer::from(39u8),
            ChatServer::from(28u8),
            ChatServer::from(15u8),
            ChatServer::from(46u8),
            ChatServer::from(48u8),
            ChatServer::from(40u8),
            ChatServer::from(47u8),
            ChatServer::from(23u8),
            ChatServer::from(27u8),
        ],
        vec![CheckServer(3), CheckServer(1), CheckServer(4), CheckServer(2)],
    )
    .unwrap();
    assert_eq!(events, vec![ChatEvent::StatusInfo(expected_status)]);
}

#[test]
fn can_not_deserialize_with_one_invalid_event() {
    // Response: [["connected"], ["commonLikes"], ...]
    let response = JsonValue::Arr(vec![
        JsonValue::Arr(vec![jstr("connected")]),
        JsonValue::Arr(vec![jstr("commonLikes")]),
    ]);
    let err = decode_events(&response).unwrap_err();
    assert_eq!(
        err.message(),
        "expected commonLikes to be followed by a non-empty list of strings"
    );
}

#[test]
fn can_not_deserialize_empty_events() {
    // Response: [[]]
    let response = JsonValue::Arr(vec![JsonValue::Arr(vec![])]);
    let err = decode_events(&response).unwrap_err();
    assert_eq!(err.message(), "Empty event array");
}

#[test]
fn can_not_deserialize_unexpected_event() {
    // Response: [["test"]]
    let response = JsonValue::Arr(vec![JsonValue::Arr(vec![jstr("test")])]);
    let err = decode_events(&response).unwrap_err();
    assert_eq!(
        err.message(),
        "unknown variant `test`, expected one of `waiting`, `connected`, `statusInfo`, `count`, `commonLikes`, `serverMessage`, `identDigests`, `error`, `connectionDied`, `antinudeBanned`, `typing`, `stoppedTyping`, `gotMessage`, `strangerDisconnected`"
    );
}

#[test]
fn unknown_variant_names_the_received_tag() {
    let response = JsonValue::Arr(vec![JsonValue::Arr(vec![jstr("bogus")])]);
    let err = decode_events(&response).unwrap_err();
    match err {
        DecodeError::UnknownVariant(tag) => assert_eq!(tag, "bogus"),
        other => panic!("expected an unknown-variant error, got {:?}", other),
    }
}

#[test]
fn common_likes_empty_list_fails() {
    // Response: [["commonLikes", []]]
    let response = JsonValue::Arr(vec![JsonValue::Arr(vec![
        jstr("commonLikes"),
        JsonValue::Arr(vec![]),
    ])]);
    let err = decode_events(&response).unwrap_err();
    assert!(matches!(err, DecodeError::PayloadCommonLikes));
}

#[test]
fn empty_response_and_non_list_response_fail() {
    assert!(matches!(
        decode_events(&JsonValue::Arr(vec![])),
        Err(DecodeError::EventsEmpty)
    ));
    assert!(matches!(
        decode_events(&jstr("win")),
        Err(DecodeError::EventsNotList)
    ));
    assert!(matches!(
        decode_events(&JsonValue::Arr(vec![JsonValue::UInt(3)])),
        Err(DecodeError::EventNotArray)
    ));
    assert!(matches!(
        decode_events(&JsonValue::Arr(vec![JsonValue::Arr(vec![JsonValue::UInt(3)])])),
        Err(DecodeError::EventTagNotString)
    ));
}

#[test]
fn surplus_payload_elements_fail() {
    let response = JsonValue::Arr(vec![JsonValue::Arr(vec![jstr("typing"), jstr("x")])]);
    assert!(matches!(
        decode_events(&response),
        Err(DecodeError::ExtraPayload)
    ));
}

#[test]
fn string_and_count_payloads_decode() {
    let response = JsonValue::Arr(vec![
        JsonValue::Arr(vec![jstr("gotMessage"), jstr("hi there")]),
        JsonValue::Arr(vec![jstr("serverMessage"), jstr("be nice")]),
        JsonValue::Arr(vec![jstr("error"), jstr("oops")]),
        JsonValue::Arr(vec![jstr("count"), JsonValue::UInt(7)]),
        JsonValue::Arr(vec![jstr("waiting")]),
        JsonValue::Arr(vec![jstr("stoppedTyping")]),
        JsonValue::Arr(vec![jstr("strangerDisconnected")]),
        JsonValue::Arr(vec![jstr("connectionDied")]),
        JsonValue::Arr(vec![jstr("antinudeBanned")]),
    ]);
    let events = decode_events(&response).unwrap();
    let expected = vec![
        ChatEvent::Message(String::from("hi there")),
        ChatEvent::ServerMessage(String::from("be nice")),
        ChatEvent::Error(String::from("oops")),
        ChatEvent::Count(7),
        ChatEvent::Waiting,
        ChatEvent::StoppedTyping,
        ChatEvent::Disconnected,
        ChatEvent::ConnectionDied,
        ChatEvent::Banned,
    ];
    assert_eq!(events, expected);
}

#[test]
fn missing_payload_draws_the_tag_specific_error() {
    let one = |tag: &str| JsonValue::Arr(vec![JsonValue::Arr(vec![jstr(tag)])]);
    assert!(matches!(
        decode_events(&one("gotMessage")),
        Err(DecodeError::PayloadMessage)
    ));
    assert!(matches!(
        decode_events(&one("serverMessage")),
        Err(DecodeError::PayloadServerMessage)
    ));
    assert!(matches!(
        decode_events(&one("identDigests")),
        Err(DecodeError::PayloadIdentDigests)
    ));
    assert!(matches!(
        decode_events(&one("error")),
        Err(DecodeError::PayloadError)
    ));
    assert!(matches!(
        decode_events(&one("count")),
        Err(DecodeError::PayloadCount)
    ));
    assert!(matches!(
        decode_events(&one("statusInfo")),
        Err(DecodeError::PayloadStatus)
    ));
}
