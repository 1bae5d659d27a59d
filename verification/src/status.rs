//! The service's status payload: the count of active users and the two
//! non-empty candidate server lists. A single malformed entry invalidates
//! the whole payload — operating on a partial server set would silently
//! route traffic incorrectly.

use vstd::prelude::*;

use crate::types::chat_server::{chat_server_decode_error, chat_server_decode_spec, ChatServer};
use crate::types::check_server::{check_server_decode_error, check_server_decode_spec, CheckServer};
use crate::types::error::DecodeError;
use crate::types::json::{spec_lookup, obj_get, JsonValue};

verus! {

/// The decoded status: fetched once per session attempt, read-only after.
#[derive(Debug, Clone)]
pub struct OmegleStatus {
    pub count: u64,
    pub servers: Vec<ChatServer>,
    pub antinudeservers: Vec<CheckServer>,
}

/// A `servers` entry decodes: a string in the "front{n}" format.
pub open spec fn server_entry_ok(v: JsonValue) -> bool {
    v matches JsonValue::Str(s) && chat_server_decode_spec(s@) is Some
}

/// Which error a bad `servers` entry draws.
pub open spec fn server_entry_error(v: JsonValue) -> DecodeError
    recommends
        !server_entry_ok(v),
{
    match v {
        JsonValue::Str(s) => chat_server_decode_error(s@),
        _ => DecodeError::StatusServerEntry,
    }
}

/// An `antinudeservers` entry decodes: a string in the "waw{d}.omegle.com"
/// format.
pub open spec fn check_entry_ok(v: JsonValue) -> bool {
    v matches JsonValue::Str(s) && check_server_decode_spec(s@) is Some
}

/// Which error a bad `antinudeservers` entry draws.
pub open spec fn check_entry_error(v: JsonValue) -> DecodeError
    recommends
        !check_entry_ok(v),
{
    match v {
        JsonValue::Str(s) => check_server_decode_error(s@),
        _ => DecodeError::StatusCheckServerEntry,
    }
}

/// The error of the first entry that fails to decode as a front server.
pub open spec fn servers_error(items: Seq<JsonValue>) -> DecodeError
    recommends
        exists|i: int| 0 <= i < items.len() && !server_entry_ok(items[i]),
    decreases items.len(),
{
    if items.len() == 0 {
        DecodeError::StatusServers
    } else if !server_entry_ok(items[0]) {
        server_entry_error(items[0])
    } else {
        servers_error(items.skip(1))
    }
}

/// The error of the first entry that fails to decode as a check server.
pub open spec fn checks_error(items: Seq<JsonValue>) -> DecodeError
    recommends
        exists|i: int| 0 <= i < items.len() && !check_entry_ok(items[i]),
    decreases items.len(),
{
    if items.len() == 0 {
        DecodeError::StatusCheckServers
    } else if !check_entry_ok(items[0]) {
        check_entry_error(items[0])
    } else {
        checks_error(items.skip(1))
    }
}

proof fn lemma_servers_error_at(items: Seq<JsonValue>, i: int)
    requires
        0 <= i < items.len(),
        !server_entry_ok(items[i]),
        forall|j: int| 0 <= j < i ==> server_entry_ok(#[trigger] items[j]),
    ensures
        servers_error(items) == server_entry_error(items[i]),
    decreases i,
{
    if i > 0 {
        lemma_servers_error_at(items.skip(1), i - 1);
    }
}

proof fn lemma_checks_error_at(items: Seq<JsonValue>, i: int)
    requires
        0 <= i < items.len(),
        !check_entry_ok(items[i]),
        forall|j: int| 0 <= j < i ==> check_entry_ok(#[trigger] items[j]),
    ensures
        checks_error(items) == check_entry_error(items[i]),
    decreases i,
{
    if i > 0 {
        lemma_checks_error_at(items.skip(1), i - 1);
    }
}

/// A status payload decodes: an object with an unsigned `count`, a
/// non-empty `servers` list of front-server strings, and a non-empty
/// `antinudeservers` list of check-server strings. Other fields are
/// present but ignored.
pub open spec fn status_decode_ok(v: JsonValue) -> bool {
    match v {
        JsonValue::Obj(entries) => {
            &&& (spec_lookup(entries@, "count"@) matches Some(c) && c is UInt)
            &&& (match spec_lookup(entries@, "servers"@) {
                Some(JsonValue::Arr(items)) => items@.len() >= 1 && (forall|i: int|
                    0 <= i < items@.len() ==> server_entry_ok(#[trigger] items@[i])),
                _ => false,
            })
            &&& (match spec_lookup(entries@, "antinudeservers"@) {
                Some(JsonValue::Arr(citems)) => citems@.len() >= 1 && (forall|i: int|
                    0 <= i < citems@.len() ==> check_entry_ok(#[trigger] citems@[i])),
                _ => false,
            })
        },
        _ => false,
    }
}

/// How a decoded status relates to its payload, field by field.
pub open spec fn status_matches(v: JsonValue, st: OmegleStatus) -> bool {
    match v {
        JsonValue::Obj(entries) => {
            &&& spec_lookup(entries@, "count"@) == Some(JsonValue::UInt(st.count))
            &&& (match spec_lookup(entries@, "servers"@) {
                Some(JsonValue::Arr(items)) => st.servers@.len() == items@.len() && (forall|i: int|
                    0 <= i < items@.len() ==> ((#[trigger] items@[i]) matches JsonValue::Str(s)
                        && chat_server_decode_spec(s@) == Some(st.servers@[i].id_number))),
                _ => false,
            })
            &&& (match spec_lookup(entries@, "antinudeservers"@) {
                Some(JsonValue::Arr(citems)) => st.antinudeservers@.len() == citems@.len() && (
                forall|i: int|
                    0 <= i < citems@.len() ==> ((#[trigger] citems@[i]) matches JsonValue::Str(s)
                        && check_server_decode_spec(s@) == Some(st.antinudeservers@[i].0))),
                _ => false,
            })
        },
        _ => false,
    }
}

/// Which error a rejected status payload draws. Fields are examined in the
/// order `count`, `servers`, `antinudeservers`; within a list, the first
/// failing entry decides.
pub open spec fn status_decode_error(v: JsonValue) -> DecodeError
    recommends
        !status_decode_ok(v),
{
    match v {
        JsonValue::Obj(entries) => {
            if !(spec_lookup(entries@, "count"@) matches Some(c) && c is UInt) {
                DecodeError::StatusCount
            } else {
                match spec_lookup(entries@, "servers"@) {
                    Some(JsonValue::Arr(items)) => {
                        if items@.len() == 0 {
                            DecodeError::StatusServersEmpty
                        } else if exists|i: int|
                            0 <= i < items@.len() && !server_entry_ok(items@[i]) {
                            servers_error(items@)
                        } else {
                            match spec_lookup(entries@, "antinudeservers"@) {
                                Some(JsonValue::Arr(citems)) => {
                                    if citems@.len() == 0 {
                                        DecodeError::StatusCheckServersEmpty
                                    } else {
                                        checks_error(citems@)
                                    }
                                },
                                _ => DecodeError::StatusCheckServers,
                            }
                        }
                    },
                    _ => DecodeError::StatusServers,
                }
            }
        },
        _ => DecodeError::StatusNotObject,
    }
}

/// A status payload whose `servers` list is empty is rejected, however
/// well-formed every other field may be: an empty-but-valid server set does
/// not exist.
pub proof fn lemma_empty_servers_rejected(v: JsonValue)
    requires
        v matches JsonValue::Obj(entries) && spec_lookup(entries@, "servers"@) matches Some(
            JsonValue::Arr(items),
        ) && items@.len() == 0,
    ensures
        !status_decode_ok(v),
{
}

/// Structural equality of two statuses.
pub open spec fn status_eq(a: OmegleStatus, b: OmegleStatus) -> bool {
    a.count == b.count && a.servers@ == b.servers@ && a.antinudeservers@ == b.antinudeservers@
}

fn chat_server_vec_eq(a: &Vec<ChatServer>, b: &Vec<ChatServer>) -> (r: bool)
    ensures
        r <==> a@ == b@,
{
    if a.len() != b.len() {
        return false;
    }
    let n = a.len();
    let mut i: usize = 0;
    while i < n
        invariant
            0 <= i <= n,
            n == a@.len(),
            n == b@.len(),
            forall|j: int| 0 <= j < i ==> a@[j] == b@[j],
        decreases n - i,
    {
        if a[i].id_number() != b[i].id_number() {
            return false;
        }
        i = i + 1;
    }
    proof {
        assert(a@ =~= b@);
    }
    true
}

fn check_server_vec_eq(a: &Vec<CheckServer>, b: &Vec<CheckServer>) -> (r: bool)
    ensures
        r <==> a@ == b@,
{
    if a.len() != b.len() {
        return false;
    }
    let n = a.len();
    let mut i: usize = 0;
    while i < n
        invariant
            0 <= i <= n,
            n == a@.len(),
            n == b@.len(),
            forall|j: int| 0 <= j < i ==> a@[j] == b@[j],
        decreases n - i,
    {
        if a[i].digit() != b[i].digit() {
            return false;
        }
        i = i + 1;
    }
    proof {
        assert(a@ =~= b@);
    }
    true
}

impl PartialEq for OmegleStatus {
    /// Two statuses are equal when all three fields agree.
    fn eq(&self, other: &OmegleStatus) -> (r: bool) {
        self.count == other.count && chat_server_vec_eq(&self.servers, &other.servers)
            && check_server_vec_eq(&self.antinudeservers, &other.antinudeservers)
    }
}

impl vstd::std_specs::cmp::PartialEqSpecImpl for OmegleStatus {
    open spec fn obeys_eq_spec() -> bool {
        true
    }

    open spec fn eq_spec(&self, other: &OmegleStatus) -> bool {
        status_eq(*self, *other)
    }
}

impl OmegleStatus {
    /// A well-formed status holds at least one server of each kind, and
    /// every check server carries a single digit.
    pub open spec fn wf(&self) -> bool {
        &&& self.servers@.len() >= 1
        &&& self.antinudeservers@.len() >= 1
        &&& forall|i: int|
            0 <= i < self.antinudeservers@.len() ==> (#[trigger] self.antinudeservers@[i]).wf()
    }

    /// Builds a status from already-decoded parts, enforcing the non-empty
    /// server lists and the single-digit check servers.
    pub fn new(count: u64, servers: Vec<ChatServer>, antinudeservers: Vec<CheckServer>) -> (r:
        Result<OmegleStatus, DecodeError>)
        ensures
            r is Ok <==> servers@.len() >= 1 && antinudeservers@.len() >= 1 && (forall|i: int|
                0 <= i < antinudeservers@.len() ==> (#[trigger] antinudeservers@[i]).wf()),
            r matches Ok(st) ==> st.count == count && st.servers@ == servers@
                && st.antinudeservers@ == antinudeservers@ && st.wf(),
    {
        if servers.len() == 0 {
            return Err(DecodeError::StatusServersEmpty);
        }
        if antinudeservers.len() == 0 {
            return Err(DecodeError::StatusCheckServersEmpty);
        }
        let n = antinudeservers.len();
        let mut i: usize = 0;
        while i < n
            invariant
                0 <= i <= n,
                n == antinudeservers@.len(),
                forall|j: int| 0 <= j < i ==> (#[trigger] antinudeservers@[j]).wf(),
            decreases n - i,
        {
            if antinudeservers[i].digit() >= 10 {
                return Err(DecodeError::CheckServerId);
            }
            i = i + 1;
        }
        Ok(OmegleStatus { count, servers, antinudeservers })
    }

    /// The count of people currently online.
    pub fn get_count(&self) -> (r: u64)
        ensures
            r == self.count,
    {
        self.count
    }

    /// The chat server the session will use: the first candidate, as the
    /// service's ordering is deferred to entirely.
    pub fn get_chat_server(&self) -> (r: ChatServer)
        requires
            self.wf(),
        ensures
            r == self.servers@[0],
    {
        self.servers[0]
    }

    /// The verification server for the handshake: the first candidate.
    pub fn get_check_server(&self) -> (r: CheckServer)
        requires
            self.wf(),
        ensures
            r == self.antinudeservers@[0],
            r.wf(),
    {
        self.antinudeservers[0]
    }

    /// Decodes a status payload. Fails — with the first offending field or
    /// entry — rather than returning a partial server set.
    #[verifier::loop_isolation(false)]
    pub fn decode(v: &JsonValue) -> (r: Result<OmegleStatus, DecodeError>)
        ensures
            r is Ok <==> status_decode_ok(*v),
            r matches Ok(st) ==> status_matches(*v, st) && st.wf(),
            r matches Err(e) ==> e == status_decode_error(*v),
    {
        let entries = match v {
            JsonValue::Obj(entries) => entries,
            _ => {
                return Err(DecodeError::StatusNotObject);
            },
        };
        let count: u64 = match obj_get(entries, "count") {
            Some(cv) => match cv {
                JsonValue::UInt(c) => *c,
                _ => {
                    return Err(DecodeError::StatusCount);
                },
            },
            None => {
                return Err(DecodeError::StatusCount);
            },
        };
        let items = match obj_get(entries, "servers") {
            Some(sv) => match sv {
                JsonValue::Arr(items) => items,
                _ => {
                    return Err(DecodeError::StatusServers);
                },
            },
            None => {
                return Err(DecodeError::StatusServers);
            },
        };
        if items.len() == 0 {
            return Err(DecodeError::StatusServersEmpty);
        }
        let mut servers: Vec<ChatServer> = Vec::new();
        let ns = items.len();
        let mut i: usize = 0;
        while i < ns
            invariant
                0 <= i <= ns,
                ns == items@.len(),
                servers@.len() == i,
                forall|j: int| 0 <= j < i ==> server_entry_ok(#[trigger] items@[j]),
                forall|j: int|
                    0 <= j < i ==> ((#[trigger] items@[j]) matches JsonValue::Str(s)
                        && chat_server_decode_spec(s@) == Some(servers@[j].id_number)),
            decreases ns - i,
        {
            match &items[i] {
                JsonValue::Str(s) => {
                    match ChatServer::decode(s.as_str()) {
                        Ok(cs) => {
                            servers.push(cs);
                        },
                        Err(e) => {
                            proof {
                                assert(!server_entry_ok(items@[i as int]));
                                lemma_servers_error_at(items@, i as int);
                            }
                            return Err(e);
                        },
                    }
                },
                _ => {
                    proof {
                        assert(!server_entry_ok(items@[i as int]));
                        lemma_servers_error_at(items@, i as int);
                    }
                    return Err(DecodeError::StatusServerEntry);
                },
            }
            i = i + 1;
        }
        let citems = match obj_get(entries, "antinudeservers") {
            Some(av) => match av {
                JsonValue::Arr(citems) => citems,
                _ => {
                    return Err(DecodeError::StatusCheckServers);
                },
            },
            None => {
                return Err(DecodeError::StatusCheckServers);
            },
        };
        if citems.len() == 0 {
            return Err(DecodeError::StatusCheckServersEmpty);
        }
        let mut antinudeservers: Vec<CheckServer> = Vec::new();
        let nc = citems.len();
        let mut k: usize = 0;
        while k < nc
            invariant
                0 <= k <= nc,
                nc == citems@.len(),
                antinudeservers@.len() == k,
                forall|j: int| 0 <= j < k ==> check_entry_ok(#[trigger] citems@[j]),
                forall|j: int|
                    0 <= j < k ==> ((#[trigger] citems@[j]) matches JsonValue::Str(s)
                        && check_server_decode_spec(s@) == Some(antinudeservers@[j].0)),
                forall|j: int| 0 <= j < k ==> (#[trigger] antinudeservers@[j]).wf(),
            decreases nc - k,
        {
            match &citems[k] {
                JsonValue::Str(s) => {
                    match CheckServer::decode(s.as_str()) {
                        Ok(cs) => {
                            antinudeservers.push(cs);
                        },
                        Err(e) => {
                            proof {
                                assert(!check_entry_ok(citems@[k as int]));
                                lemma_checks_error_at(citems@, k as int);
                            }
                            return Err(e);
                        },
                    }
                },
                _ => {
                    proof {
                        assert(!check_entry_ok(citems@[k as int]));
                        lemma_checks_error_at(citems@, k as int);
                    }
                    return Err(DecodeError::StatusCheckServerEntry);
                },
            }
            k = k + 1;
        }
        Ok(OmegleStatus { count, servers, antinudeservers })
    }
}

} // verus!
