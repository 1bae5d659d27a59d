//! One ongoing chat session: the identifier it is keyed by, the server it
//! talks to, the requests its actions issue, the validation of the
//! service's action responses, and the coarse state machine driven by the
//! decoded event stream.

use vstd::prelude::*;
use vstd::string::*;

use crate::strutil::str_eq;
use crate::types::chat_event::ChatEvent;
use crate::types::chat_server::{chat_server_chars, push_front_string, ChatServer};
use crate::types::client_id::{client_id_chars, ClientID};
use crate::types::error::OmegleLibError;

verus! {

/// One of the session's five requests to the service.
#[derive(Debug, Clone, Copy, PartialEq, Eq, Structural)]
pub enum ChatAction {
    SendMessage,
    StartTyping,
    StopTyping,
    GetEvents,
    Disconnect,
}

/// The path segment of each action's endpoint.
pub open spec fn action_path_chars(a: ChatAction) -> Seq<char> {
    match a {
        ChatAction::SendMessage => "send"@,
        ChatAction::StartTyping => "typing"@,
        ChatAction::StopTyping => "stoppedtyping"@,
        ChatAction::GetEvents => "events"@,
        ChatAction::Disconnect => "disconnect"@,
    }
}

/// The full URL an action is posted to.
pub open spec fn action_url_chars(server: ChatServer, a: ChatAction) -> Seq<char> {
    "http://"@ + chat_server_chars(server.id_number as nat) + ".omegle.com/"@ + action_path_chars(
        a,
    )
}

/// The coarse session state, driven only by the decoded event stream.
#[derive(Debug, Clone, Copy, PartialEq, Eq, Structural)]
pub enum SessionState {
    /// Created, nothing polled yet.
    Idle,
    /// The service reported it is looking for a partner.
    Waiting,
    /// A partner is connected.
    Connected,
    /// A terminal event was observed; the session is over.
    Ended,
}

/// The state after observing one event: the three terminal events end the
/// session from any state; Waiting and Connected advance the handshake;
/// everything else (typing signals, messages, counts) leaves the coarse
/// state unchanged.
pub open spec fn next_state_spec(s: SessionState, e: ChatEvent) -> SessionState {
    match e {
        ChatEvent::Disconnected => SessionState::Ended,
        ChatEvent::ConnectionDied => SessionState::Ended,
        ChatEvent::Banned => SessionState::Ended,
        ChatEvent::Waiting => if s is Idle {
            SessionState::Waiting
        } else {
            s
        },
        ChatEvent::Connected => if s is Idle || s is Waiting {
            SessionState::Connected
        } else {
            s
        },
        _ => s,
    }
}

/// Applies one observed event to the session state.
pub fn next_state(s: SessionState, e: &ChatEvent) -> (r: SessionState)
    ensures
        r == next_state_spec(s, *e),
{
    match e {
        ChatEvent::Disconnected => SessionState::Ended,
        ChatEvent::ConnectionDied => SessionState::Ended,
        ChatEvent::Banned => SessionState::Ended,
        ChatEvent::Waiting => {
            if s == SessionState::Idle {
                SessionState::Waiting
            } else {
                s
            }
        },
        ChatEvent::Connected => {
            if s == SessionState::Idle || s == SessionState::Waiting {
                SessionState::Connected
            } else {
                s
            }
        },
        _ => s,
    }
}

/// Whether polling is still a legitimate operation: calling poll after a
/// terminal event is a caller error, not silently tolerated.
pub fn can_poll(s: SessionState) -> (r: bool)
    ensures
        r <==> !(s is Ended),
{
    !(s == SessionState::Ended)
}

/// The Ended state is terminal: no event leads out of it.
pub proof fn lemma_ended_is_terminal(e: ChatEvent)
    ensures
        next_state_spec(SessionState::Ended, e) is Ended,
{
}

/// A single ongoing chat session: the client identifier used as the
/// correlation key, and the front server all its requests go to. The
/// transport handle stays with the caller.
#[derive(Debug, Clone)]
pub struct ChatSession {
    pub client_id: ClientID,
    pub server: ChatServer,
}

impl ChatSession {
    /// A well-formed session carries a well-formed client identifier.
    pub open spec fn wf(&self) -> bool {
        self.client_id.wf()
    }

    /// Binds a session to its identifier and server.
    pub fn new(client_id: ClientID, server: ChatServer) -> (r: ChatSession)
        ensures
            r.client_id == client_id,
            r.server == server,
    {
        ChatSession { client_id, server }
    }

    /// The URL one action of this session is posted to.
    pub fn action_url(&self, a: ChatAction) -> (r: String)
        ensures
            r@ == action_url_chars(self.server, a),
    {
        proof {
            reveal_strlit("http://");
            reveal_strlit(".omegle.com/");
        }
        let mut out = String::new();
        out.append("http://");
        push_front_string(&mut out, self.server.id_number);
        out.append(".omegle.com/");
        match a {
            ChatAction::SendMessage => out.append("send"),
            ChatAction::StartTyping => out.append("typing"),
            ChatAction::StopTyping => out.append("stoppedtyping"),
            ChatAction::GetEvents => out.append("events"),
            ChatAction::Disconnect => out.append("disconnect"),
        }
        proof {
            assert(out@ =~= action_url_chars(self.server, a));
        }
        out
    }

    /// The `id` value every action sends in its form body: the client
    /// identifier in its canonical string form.
    pub fn client_id_string(&self) -> (r: String)
        requires
            self.wf(),
        ensures
            r@ == client_id_chars(
                self.client_id.server_type,
                self.client_id.server_id as nat,
                self.client_id.user_id@,
            ),
    {
        self.client_id.encode()
    }

    /// Classifies an action response body: the literal success token is
    /// accepted, any other body is a protocol-level action failure carried
    /// verbatim for diagnosis.
    pub fn validate_action_response(resp: &str) -> (r: Result<(), OmegleLibError>)
        ensures
            r is Ok <==> resp@ == "win"@,
            r matches Err(e) ==> (e matches OmegleLibError::OmegleError(m) && m@ == resp@),
    {
        if str_eq(resp, "win") {
            Ok(())
        } else {
            Err(OmegleLibError::OmegleError(String::from_str(resp)))
        }
    }
}

} // verus!
