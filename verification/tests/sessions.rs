use omegle_rs::chat_session::{
    can_poll, next_state, ChatAction, ChatSession, SessionState,
};
use omegle_rs::omegle::Omegle;
use omegle_rs::status::OmegleStatus;
use omegle_rs::types::chat_event::ChatEvent;
use omegle_rs::types::chat_server::ChatServer;
use omegle_rs::types::check_server::CheckServer;
use omegle_rs::types::client_id::ClientID;
use omegle_rs::types::error::OmegleLibError;
use omegle_rs::types::lang::LangCode;

fn sample_status() -> OmegleStatus {
    OmegleStatus::new(
        100,
        vec![ChatServer::from(15u8), ChatServer::from(2u8)],
        vec![CheckServer(4), CheckServer(1)],
    )
    .unwrap()
}

fn sample_session() -> ChatSession {
    let client_id = ClientID::decode("central3:aaaaaaaaaaaaaaaaaaaaaaaaaaaaaa").unwrap();
    ChatSession::new(client_id, ChatServer::from(15u8))
}

#[test]
fn action_urls_follow_the_endpoint_scheme() {
    let session = sample_session();
    assert_eq!(
        session.action_url(ChatAction::SendMessage),
        "http://front15.omegle.com/send"
    );
    assert_eq!(
        session.action_url(ChatAction::StartTyping),
        "http://front15.omegle.com/typing"
    );
    assert_eq!(
        session.action_url(ChatAction::StopTyping),
        "http://front15.omegle.com/stoppedtyping"
    );
    assert_eq!(
        session.action_url(ChatAction::GetEvents),
        "http://front15.omegle.com/events"
    );
    assert_eq!(
        session.action_url(ChatAction::Disconnect),
        "http://front15.omegle.com/disconnect"
    );
}

#[test]
fn the_form_id_is_the_encoded_client_id() {
    let session = sample_session();
    assert_eq!(
        session.client_id_string(),
        "central3:aaaaaaaaaaaaaaaaaaaaaaaaaaaaaa"
    );
}

#[test]
fn action_response_validation_accepts_only_the_success_token() {
    assert!(ChatSession::validate_action_response("win").is_ok());
    let err = ChatSession::validate_action_response("ban").unwrap_err();
    match err {
        OmegleLibError::OmegleError(body) => assert_eq!(body, "ban"),
        other => panic!("expected an action failure, got {:?}", other),
    }
    let err = ChatSession::validate_action_response("ban").unwrap_err();
    assert_eq!(err.message(), "omegle server responded with 'ban'");
}

#[test]
fn session_state_follows_the_event_stream() {
    let s0 = SessionState::Idle;
    let s1 = next_state(s0, &ChatEvent::Waiting);
    assert_eq!(s1, SessionState::Waiting);
    let s2 = next_state(s1, &ChatEvent::Connected);
    assert_eq!(s2, SessionState::Connected);
    let s3 = next_state(s2, &ChatEvent::Message(String::from("hi")));
    assert_eq!(s3, SessionState::Connected);
    let s4 = next_state(s3, &ChatEvent::StartedTyping);
    assert_eq!(s4, SessionState::Connected);
    let s5 = next_state(s4, &ChatEvent::Disconnected);
    assert_eq!(s5, SessionState::Ended);
}

#[test]
fn connecting_without_waiting_and_all_terminal_events() {
    assert_eq!(
        next_state(SessionState::Idle, &ChatEvent::Connected),
        SessionState::Connected
    );
    assert_eq!(
        next_state(SessionState::Idle, &ChatEvent::ConnectionDied),
        SessionState::Ended
    );
    assert_eq!(
        next_state(SessionState::Waiting, &ChatEvent::Banned),
        SessionState::Ended
    );
    assert_eq!(
        next_state(SessionState::Connected, &ChatEvent::Waiting),
        SessionState::Connected
    );
}

#[test]
fn the_ended_state_is_terminal_and_refuses_polling() {
    assert_eq!(
        next_state(SessionState::Ended, &ChatEvent::Connected),
        SessionState::Ended
    );
    assert_eq!(
        next_state(SessionState::Ended, &ChatEvent::Waiting),
        SessionState::Ended
    );
    assert!(can_poll(SessionState::Idle));
    assert!(can_poll(SessionState::Connected));
    assert!(!can_poll(SessionState::Ended));
}

#[test]
fn factory_builds_urls_from_the_first_servers() {
    let omegle = Omegle::new(sample_status(), vec![], LangCode::English);
    assert_eq!(omegle.check_url(), "http://waw4.omegle.com/check");
    let url = omegle.start_url("tokn");
    let rand = omegle.rand_id.encode();
    let expected = format!(
        "http://front15.omegle.com/start?caps=recaptcha2,t3&spid=&randid={}&cc=tokn&lang=en",
        rand
    );
    assert_eq!(url, expected);
}

#[test]
fn start_url_joins_topics_and_omits_them_when_absent() {
    let omegle = Omegle::new(
        sample_status(),
        vec![String::from("books"), String::from("tea")],
        LangCode::French,
    );
    let url = omegle.start_url("cc");
    let rand = omegle.rand_id.encode();
    let expected = format!(
        "http://front15.omegle.com/start?caps=recaptcha2,t3&spid=&randid={}&cc=cc&topics=books,tea&lang=fr",
        rand
    );
    assert_eq!(url, expected);

    let bare = Omegle::new(sample_status(), vec![], LangCode::French);
    assert!(!bare.start_url("cc").contains("&topics="));
}

#[test]
fn factory_topics_are_kept_once_in_first_seen_order() {
    let omegle = Omegle::new(
        sample_status(),
        vec![
            String::from("books"),
            String::from("tea"),
            String::from("books"),
        ],
        LangCode::English,
    );
    assert_eq!(
        omegle.get_current_interests(),
        vec![String::from("books"), String::from("tea")]
    );
}

#[test]
fn interests_can_be_added_and_removed() {
    let mut omegle = Omegle::new(sample_status(), vec![], LangCode::English);
    assert!(omegle.add_interest("knitting"));
    assert!(!omegle.add_interest("knitting"));
    assert!(omegle.add_interest("chess"));
    assert_eq!(
        omegle.get_current_interests_iter(),
        vec![String::from("knitting"), String::from("chess")]
    );
    assert!(omegle.remove_interest("knitting"));
    assert!(!omegle.remove_interest("knitting"));
    assert_eq!(omegle.get_current_interests(), vec![String::from("chess")]);
}

#[test]
fn language_can_be_updated() {
    let mut omegle = Omegle::new(sample_status(), vec![], LangCode::English);
    assert_eq!(omegle.get_current_lang().code(), "en");
    omegle.update_lang(LangCode::Spanish);
    assert_eq!(omegle.get_current_lang().code(), "es");
}

#[test]
fn make_session_decodes_the_start_chat_response() {
    let omegle = Omegle::new(sample_status(), vec![], LangCode::English);
    let session = omegle
        .make_session("shard9:zzzzzzzzzzzzzzzzzzzzzzzzzzzzzz")
        .unwrap();
    assert_eq!(session.server, ChatServer::from(15u8));
    assert_eq!(session.client_id.server_id(), 9);
    assert!(omegle.make_session("nonsense").is_err());
}
