//! The long-poll event stream: each event arrives as an array whose first
//! element is a string tag and whose remaining elements are that tag's
//! payload. The vocabulary is closed — an unknown tag likely signals a
//! protocol change and must fail rather than be misread as a no-op.

use vstd::prelude::*;
use vstd::string::*;

use crate::status::{
    status_decode_error, status_decode_ok, status_eq, status_matches, OmegleStatus,
};
use crate::strutil::str_eq;
use crate::types::error::DecodeError;
use crate::types::json::JsonValue;

verus! {

/// One decoded chat event.
#[derive(Debug)]
pub enum ChatEvent {
    Waiting,
    Connected,
    StatusInfo(OmegleStatus),
    Count(u64),
    CommonLikes(Vec<String>),
    ServerMessage(String),
    IdentDigests(String),
    Error(String),
    ConnectionDied,
    Banned,
    StartedTyping,
    StoppedTyping,
    Message(String),
    Disconnected,
}

/// The tags that carry no payload.
pub open spec fn no_payload_tag(tag: Seq<char>) -> bool {
    ||| tag == "waiting"@
    ||| tag == "connected"@
    ||| tag == "connectionDied"@
    ||| tag == "antinudeBanned"@
    ||| tag == "typing"@
    ||| tag == "stoppedTyping"@
    ||| tag == "strangerDisconnected"@
}

/// The tags whose payload is a single string.
pub open spec fn string_payload_tag(tag: Seq<char>) -> bool {
    ||| tag == "serverMessage"@
    ||| tag == "identDigests"@
    ||| tag == "error"@
    ||| tag == "gotMessage"@
}

/// A single event decodes: a non-empty array led by a known string tag,
/// followed by exactly the payload that tag expects.
pub open spec fn event_ok(j: JsonValue) -> bool {
    match j {
        JsonValue::Arr(items) => items@.len() >= 1 && (match items@[0] {
            JsonValue::Str(tag) => {
                if no_payload_tag(tag@) {
                    items@.len() == 1
                } else if string_payload_tag(tag@) {
                    items@.len() == 2 && items@[1] is Str
                } else if tag@ == "statusInfo"@ {
                    items@.len() == 2 && status_decode_ok(items@[1])
                } else if tag@ == "count"@ {
                    items@.len() == 2 && items@[1] is UInt
                } else if tag@ == "commonLikes"@ {
                    items@.len() == 2 && (match items@[1] {
                        JsonValue::Arr(xs) => xs@.len() >= 1 && (forall|i: int|
                            0 <= i < xs@.len() ==> (#[trigger] xs@[i]) is Str),
                        _ => false,
                    })
                } else {
                    false
                }
            },
            _ => false,
        }),
        _ => false,
    }
}

/// How a decoded event relates to its wire form, tag by tag.
pub open spec fn event_matches(j: JsonValue, e: ChatEvent) -> bool {
    match j {
        JsonValue::Arr(items) => items@.len() >= 1 && (match items@[0] {
            JsonValue::Str(tag) => {
                if tag@ == "waiting"@ {
                    e is Waiting
                } else if tag@ == "connected"@ {
                    e is Connected
                } else if tag@ == "connectionDied"@ {
                    e is ConnectionDied
                } else if tag@ == "antinudeBanned"@ {
                    e is Banned
                } else if tag@ == "typing"@ {
                    e is StartedTyping
                } else if tag@ == "stoppedTyping"@ {
                    e is StoppedTyping
                } else if tag@ == "strangerDisconnected"@ {
                    e is Disconnected
                } else if tag@ == "statusInfo"@ {
                    items@.len() == 2 && (e matches ChatEvent::StatusInfo(st) && status_matches(
                        items@[1],
                        st,
                    ) && st.wf())
                } else if tag@ == "count"@ {
                    items@.len() == 2 && (items@[1] matches JsonValue::UInt(c) && e
                        == ChatEvent::Count(c))
                } else if tag@ == "commonLikes"@ {
                    items@.len() == 2 && (match items@[1] {
                        JsonValue::Arr(xs) => e matches ChatEvent::CommonLikes(ls) && ls@.len()
                            == xs@.len() && (forall|i: int|
                            0 <= i < xs@.len() ==> ((#[trigger] xs@[i]) matches JsonValue::Str(s)
                                && ls@[i]@ == s@)),
                        _ => false,
                    })
                } else if tag@ == "serverMessage"@ {
                    items@.len() == 2 && (items@[1] matches JsonValue::Str(s) && (e matches
                    ChatEvent::ServerMessage(m) && m@ == s@))
                } else if tag@ == "identDigests"@ {
                    items@.len() == 2 && (items@[1] matches JsonValue::Str(s) && (e matches
                    ChatEvent::IdentDigests(m) && m@ == s@))
                } else if tag@ == "error"@ {
                    items@.len() == 2 && (items@[1] matches JsonValue::Str(s) && (e matches
                    ChatEvent::Error(m) && m@ == s@))
                } else if tag@ == "gotMessage"@ {
                    items@.len() == 2 && (items@[1] matches JsonValue::Str(s) && (e matches
                    ChatEvent::Message(m) && m@ == s@))
                } else {
                    false
                }
            },
            _ => false,
        }),
        _ => false,
    }
}

/// Which error a rejected event draws. A known tag with a present but
/// malformed payload reports the payload's own failure; surplus elements
/// after a complete payload are refused.
pub open spec fn event_decode_error(j: JsonValue) -> DecodeError
    recommends
        !event_ok(j),
{
    match j {
        JsonValue::Arr(items) => {
            if items@.len() == 0 {
                DecodeError::EmptyEventArray
            } else {
                match items@[0] {
                    JsonValue::Str(tag) => {
                        if no_payload_tag(tag@) {
                            DecodeError::ExtraPayload
                        } else if tag@ == "statusInfo"@ {
                            if items@.len() == 1 {
                                DecodeError::PayloadStatus
                            } else if !status_decode_ok(items@[1]) {
                                status_decode_error(items@[1])
                            } else {
                                DecodeError::ExtraPayload
                            }
                        } else if tag@ == "count"@ {
                            if items@.len() >= 2 && items@[1] is UInt {
                                DecodeError::ExtraPayload
                            } else {
                                DecodeError::PayloadCount
                            }
                        } else if tag@ == "commonLikes"@ {
                            if items@.len() >= 2 && (match items@[1] {
                                JsonValue::Arr(xs) => xs@.len() >= 1 && (forall|i: int|
                                    0 <= i < xs@.len() ==> (#[trigger] xs@[i]) is Str),
                                _ => false,
                            }) {
                                DecodeError::ExtraPayload
                            } else {
                                DecodeError::PayloadCommonLikes
                            }
                        } else if tag@ == "serverMessage"@ {
                            if items@.len() >= 2 && items@[1] is Str {
                                DecodeError::ExtraPayload
                            } else {
                                DecodeError::PayloadServerMessage
                            }
                        } else if tag@ == "identDigests"@ {
                            if items@.len() >= 2 && items@[1] is Str {
                                DecodeError::ExtraPayload
                            } else {
                                DecodeError::PayloadIdentDigests
                            }
                        } else if tag@ == "error"@ {
                            if items@.len() >= 2 && items@[1] is Str {
                                DecodeError::ExtraPayload
                            } else {
                                DecodeError::PayloadError
                            }
                        } else if tag@ == "gotMessage"@ {
                            if items@.len() >= 2 && items@[1] is Str {
                                DecodeError::ExtraPayload
                            } else {
                                DecodeError::PayloadMessage
                            }
                        } else {
                            DecodeError::UnknownVariant(tag)
                        }
                    },
                    _ => DecodeError::EventTagNotString,
                }
            }
        },
        _ => DecodeError::EventNotArray,
    }
}

/// A poll response decodes: a non-empty array of well-formed events.
pub open spec fn events_decode_ok(v: JsonValue) -> bool {
    match v {
        JsonValue::Arr(evs) => evs@.len() >= 1 && (forall|i: int|
            0 <= i < evs@.len() ==> event_ok(#[trigger] evs@[i])),
        _ => false,
    }
}

/// How a decoded event sequence relates to the response, in arrival order.
pub open spec fn events_match(v: JsonValue, out: Seq<ChatEvent>) -> bool {
    match v {
        JsonValue::Arr(evs) => out.len() == evs@.len() && (forall|i: int|
            0 <= i < evs@.len() ==> event_matches(#[trigger] evs@[i], out[i])),
        _ => false,
    }
}

/// The error of the first event that fails to decode.
pub open spec fn events_error(evs: Seq<JsonValue>) -> DecodeError
    recommends
        exists|i: int| 0 <= i < evs.len() && !event_ok(evs[i]),
    decreases evs.len(),
{
    if evs.len() == 0 {
        DecodeError::EventsEmpty
    } else if !event_ok(evs[0]) {
        event_decode_error(evs[0])
    } else {
        events_error(evs.skip(1))
    }
}

/// Which error a rejected poll response draws.
pub open spec fn events_decode_error(v: JsonValue) -> DecodeError
    recommends
        !events_decode_ok(v),
{
    match v {
        JsonValue::Arr(evs) => {
            if evs@.len() == 0 {
                DecodeError::EventsEmpty
            } else {
                events_error(evs@)
            }
        },
        _ => DecodeError::EventsNotList,
    }
}

proof fn lemma_events_error_at(evs: Seq<JsonValue>, i: int)
    requires
        0 <= i < evs.len(),
        !event_ok(evs[i]),
        forall|j: int| 0 <= j < i ==> event_ok(#[trigger] evs[j]),
    ensures
        events_error(evs) == event_decode_error(evs[i]),
    decreases i,
{
    if i > 0 {
        lemma_events_error_at(evs.skip(1), i - 1);
    }
}

/// The fourteen tag literals are pairwise distinct: their lengths separate
/// all but four pairs, and those differ in their first character.
proof fn lemma_tags_distinct()
    ensures
        "waiting"@.len() == 7,
        "connected"@.len() == 9,
        "statusInfo"@.len() == 10,
        "count"@.len() == 5,
        "commonLikes"@.len() == 11,
        "serverMessage"@.len() == 13,
        "identDigests"@.len() == 12,
        "error"@.len() == 5,
        "connectionDied"@.len() == 14,
        "antinudeBanned"@.len() == 14,
        "typing"@.len() == 6,
        "stoppedTyping"@.len() == 13,
        "gotMessage"@.len() == 10,
        "strangerDisconnected"@.len() == 20,
        "count"@ != "error"@,
        "statusInfo"@ != "gotMessage"@,
        "serverMessage"@ != "stoppedTyping"@,
        "connectionDied"@ != "antinudeBanned"@,
{
    reveal_strlit("waiting");
    reveal_strlit("connected");
    reveal_strlit("statusInfo");
    reveal_strlit("count");
    reveal_strlit("commonLikes");
    reveal_strlit("serverMessage");
    reveal_strlit("identDigests");
    reveal_strlit("error");
    reveal_strlit("connectionDied");
    reveal_strlit("antinudeBanned");
    reveal_strlit("typing");
    reveal_strlit("stoppedTyping");
    reveal_strlit("gotMessage");
    reveal_strlit("strangerDisconnected");
    assert("count"@[0] == 'c' && "error"@[0] == 'e');
    assert("statusInfo"@[0] == 's' && "gotMessage"@[0] == 'g');
    assert("serverMessage"@[1] == 'e' && "stoppedTyping"@[1] == 't');
    assert("connectionDied"@[0] == 'c' && "antinudeBanned"@[0] == 'a');
}

/// Decodes one tagged event array.
#[verifier::loop_isolation(false)]
pub fn decode_event(v: &JsonValue) -> (r: Result<ChatEvent, DecodeError>)
    ensures
        r is Ok <==> event_ok(*v),
        r matches Ok(e) ==> event_matches(*v, e),
        r matches Err(er) ==> er == event_decode_error(*v),
{
    proof {
        lemma_tags_distinct();
    }
    let items = match v {
        JsonValue::Arr(items) => items,
        _ => {
            return Err(DecodeError::EventNotArray);
        },
    };
    if items.len() == 0 {
        return Err(DecodeError::EmptyEventArray);
    }
    let tag = match &items[0] {
        JsonValue::Str(t) => t,
        _ => {
            return Err(DecodeError::EventTagNotString);
        },
    };
    let ts = tag.as_str();
    if str_eq(ts, "waiting") {
        if items.len() != 1 {
            return Err(DecodeError::ExtraPayload);
        }
        Ok(ChatEvent::Waiting)
    } else if str_eq(ts, "connected") {
        if items.len() != 1 {
            return Err(DecodeError::ExtraPayload);
        }
        Ok(ChatEvent::Connected)
    } else if str_eq(ts, "connectionDied") {
        if items.len() != 1 {
            return Err(DecodeError::ExtraPayload);
        }
        Ok(ChatEvent::ConnectionDied)
    } else if str_eq(ts, "antinudeBanned") {
        if items.len() != 1 {
            return Err(DecodeError::ExtraPayload);
        }
        Ok(ChatEvent::Banned)
    } else if str_eq(ts, "typing") {
        if items.len() != 1 {
            return Err(DecodeError::ExtraPayload);
        }
        Ok(ChatEvent::StartedTyping)
    } else if str_eq(ts, "stoppedTyping") {
        if items.len() != 1 {
            return Err(DecodeError::ExtraPayload);
        }
        Ok(ChatEvent::StoppedTyping)
    } else if str_eq(ts, "strangerDisconnected") {
        if items.len() != 1 {
            return Err(DecodeError::ExtraPayload);
        }
        Ok(ChatEvent::Disconnected)
    } else if str_eq(ts, "statusInfo") {
        if items.len() == 1 {
            return Err(DecodeError::PayloadStatus);
        }
        match OmegleStatus::decode(&items[1]) {
            Err(e) => Err(e),
            Ok(st) => {
                if items.len() != 2 {
                    return Err(DecodeError::ExtraPayload);
                }
                Ok(ChatEvent::StatusInfo(st))
            },
        }
    } else if str_eq(ts, "count") {
        if items.len() == 1 {
            return Err(DecodeError::PayloadCount);
        }
        match &items[1] {
            JsonValue::UInt(c) => {
                if items.len() != 2 {
                    return Err(DecodeError::ExtraPayload);
                }
                Ok(ChatEvent::Count(*c))
            },
            _ => Err(DecodeError::PayloadCount),
        }
    } else if str_eq(ts, "commonLikes") {
        if items.len() == 1 {
            return Err(DecodeError::PayloadCommonLikes);
        }
        match &items[1] {
            JsonValue::Arr(xs) => {
                if xs.len() == 0 {
                    return Err(DecodeError::PayloadCommonLikes);
                }
                let nx = xs.len();
                let mut likes: Vec<String> = Vec::new();
                let mut i: usize = 0;
                while i < nx
                    invariant
                        0 <= i <= nx,
                        likes@.len() == i,
                        forall|j: int| 0 <= j < i ==> (#[trigger] xs@[j]) is Str,
                        forall|j: int|
                            0 <= j < i ==> ((#[trigger] xs@[j]) matches JsonValue::Str(s)
                                && likes@[j]@ == s@),
                    decreases nx - i,
                {
                    match &xs[i] {
                        JsonValue::Str(s) => {
                            likes.push(s.clone());
                        },
                        _ => {
                            return Err(DecodeError::PayloadCommonLikes);
                        },
                    }
                    i = i + 1;
                }
                if items.len() != 2 {
                    return Err(DecodeError::ExtraPayload);
                }
                Ok(ChatEvent::CommonLikes(likes))
            },
            _ => Err(DecodeError::PayloadCommonLikes),
        }
    } else if str_eq(ts, "serverMessage") {
        if items.len() == 1 {
            return Err(DecodeError::PayloadServerMessage);
        }
        match &items[1] {
            JsonValue::Str(s) => {
                if items.len() != 2 {
                    return Err(DecodeError::ExtraPayload);
                }
                Ok(ChatEvent::ServerMessage(s.clone()))
            },
            _ => Err(DecodeError::PayloadServerMessage),
        }
    } else if str_eq(ts, "identDigests") {
        if items.len() == 1 {
            return Err(DecodeError::PayloadIdentDigests);
        }
        match &items[1] {
            JsonValue::Str(s) => {
                if items.len() != 2 {
                    return Err(DecodeError::ExtraPayload);
                }
                Ok(ChatEvent::IdentDigests(s.clone()))
            },
            _ => Err(DecodeError::PayloadIdentDigests),
        }
    } else if str_eq(ts, "error") {
        if items.len() == 1 {
            return Err(DecodeError::PayloadError);
        }
        match &items[1] {
            JsonValue::Str(s) => {
                if items.len() != 2 {
                    return Err(DecodeError::ExtraPayload);
                }
                Ok(ChatEvent::Error(s.clone()))
            },
            _ => Err(DecodeError::PayloadError),
        }
    } else if str_eq(ts, "gotMessage") {
        if items.len() == 1 {
            return Err(DecodeError::PayloadMessage);
        }
        match &items[1] {
            JsonValue::Str(s) => {
                if items.len() != 2 {
                    return Err(DecodeError::ExtraPayload);
                }
                Ok(ChatEvent::Message(s.clone()))
            },
            _ => Err(DecodeError::PayloadMessage),
        }
    } else {
        Err(DecodeError::UnknownVariant(tag.clone()))
    }
}

/// Decodes a whole poll response: a non-empty ordered sequence of events,
/// or the first event's failure. Ordering is preserved — the caller
/// processes events in arrival order.
#[verifier::loop_isolation(false)]
pub fn decode_events(v: &JsonValue) -> (r: Result<Vec<ChatEvent>, DecodeError>)
    ensures
        r is Ok <==> events_decode_ok(*v),
        r matches Ok(out) ==> events_match(*v, out@) && out@.len() >= 1,
        r matches Err(e) ==> e == events_decode_error(*v),
{
    let evs = match v {
        JsonValue::Arr(evs) => evs,
        _ => {
            return Err(DecodeError::EventsNotList);
        },
    };
    if evs.len() == 0 {
        return Err(DecodeError::EventsEmpty);
    }
    let n = evs.len();
    let mut out: Vec<ChatEvent> = Vec::new();
    let mut i: usize = 0;
    while i < n
        invariant
            0 <= i <= n,
            out@.len() == i,
            forall|j: int| 0 <= j < i ==> event_ok(#[trigger] evs@[j]),
            forall|j: int| 0 <= j < i ==> event_matches(#[trigger] evs@[j], out@[j]),
        decreases n - i,
    {
        match decode_event(&evs[i]) {
            Ok(e) => {
                out.push(e);
            },
            Err(er) => {
                proof {
                    assert(!event_ok(evs@[i as int]));
                    lemma_events_error_at(evs@, i as int);
                }
                return Err(er);
            },
        }
        i = i + 1;
    }
    Ok(out)
}

/// Structural equality of two events, payload views included.
pub open spec fn event_eq(a: ChatEvent, b: ChatEvent) -> bool {
    match (a, b) {
        (ChatEvent::Waiting, ChatEvent::Waiting) => true,
        (ChatEvent::Connected, ChatEvent::Connected) => true,
        (ChatEvent::StatusInfo(x), ChatEvent::StatusInfo(y)) => status_eq(x, y),
        (ChatEvent::Count(x), ChatEvent::Count(y)) => x == y,
        (ChatEvent::CommonLikes(x), ChatEvent::CommonLikes(y)) => x.deep_view() == y.deep_view(),
        (ChatEvent::ServerMessage(x), ChatEvent::ServerMessage(y)) => x@ == y@,
        (ChatEvent::IdentDigests(x), ChatEvent::IdentDigests(y)) => x@ == y@,
        (ChatEvent::Error(x), ChatEvent::Error(y)) => x@ == y@,
        (ChatEvent::ConnectionDied, ChatEvent::ConnectionDied) => true,
        (ChatEvent::Banned, ChatEvent::Banned) => true,
        (ChatEvent::StartedTyping, ChatEvent::StartedTyping) => true,
        (ChatEvent::StoppedTyping, ChatEvent::StoppedTyping) => true,
        (ChatEvent::Message(x), ChatEvent::Message(y)) => x@ == y@,
        (ChatEvent::Disconnected, ChatEvent::Disconnected) => true,
        _ => false,
    }
}

fn string_vec_eq(a: &Vec<String>, b: &Vec<String>) -> (r: bool)
    ensures
        r <==> a.deep_view() == b.deep_view(),
{
    if a.len() != b.len() {
        proof {
            assert(a.deep_view().len() == a@.len());
            assert(b.deep_view().len() == b@.len());
        }
        return false;
    }
    let n = a.len();
    let mut i: usize = 0;
    while i < n
        invariant
            0 <= i <= n,
            n == a@.len(),
            n == b@.len(),
            forall|j: int| 0 <= j < i ==> a@[j]@ == b@[j]@,
        decreases n - i,
    {
        if !(a[i] == b[i]) {
            proof {
                assert(a.deep_view()[i as int] != b.deep_view()[i as int]);
            }
            return false;
        }
        i = i + 1;
    }
    proof {
        assert(a.deep_view() =~= b.deep_view());
    }
    true
}

impl PartialEq for ChatEvent {
    /// Two events are equal when they carry the same tag and payload.
    fn eq(&self, other: &ChatEvent) -> (r: bool) {
        match (self, other) {
            (ChatEvent::Waiting, ChatEvent::Waiting) => true,
            (ChatEvent::Connected, ChatEvent::Connected) => true,
            (ChatEvent::StatusInfo(x), ChatEvent::StatusInfo(y)) => x.eq(y),
            (ChatEvent::Count(x), ChatEvent::Count(y)) => *x == *y,
            (ChatEvent::CommonLikes(x), ChatEvent::CommonLikes(y)) => string_vec_eq(x, y),
            (ChatEvent::ServerMessage(x), ChatEvent::ServerMessage(y)) => str_eq(
                x.as_str(),
                y.as_str(),
            ),
            (ChatEvent::IdentDigests(x), ChatEvent::IdentDigests(y)) => str_eq(
                x.as_str(),
                y.as_str(),
            ),
            (ChatEvent::Error(x), ChatEvent::Error(y)) => str_eq(x.as_str(), y.as_str()),
            (ChatEvent::ConnectionDied, ChatEvent::ConnectionDied) => true,
            (ChatEvent::Banned, ChatEvent::Banned) => true,
            (ChatEvent::StartedTyping, ChatEvent::StartedTyping) => true,
            (ChatEvent::StoppedTyping, ChatEvent::StoppedTyping) => true,
            (ChatEvent::Message(x), ChatEvent::Message(y)) => str_eq(x.as_str(), y.as_str()),
            (ChatEvent::Disconnected, ChatEvent::Disconnected) => true,
            _ => false,
        }
    }
}

impl vstd::std_specs::cmp::PartialEqSpecImpl for ChatEvent {
    open spec fn obeys_eq_spec() -> bool {
        true
    }

    open spec fn eq_spec(&self, other: &ChatEvent) -> bool {
        event_eq(*self, *other)
    }
}

} // verus!
