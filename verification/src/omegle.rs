//! The session factory: holds the fresh random identifier, the resolved
//! status, the topic preferences and the language, builds the handshake and
//! start-chat requests, and turns the start-chat response into a session.

use vstd::prelude::*;
use vstd::string::*;

use crate::chat_session::ChatSession;
use crate::status::OmegleStatus;
use crate::strutil::str_eq;
use crate::types::chat_server::{chat_server_chars, push_front_string, ChatServer};
use crate::types::check_server::check_server_chars;
use crate::types::client_id::{
    client_id_decode_error, client_id_decode_spec, ClientID,
};
use crate::types::error::DecodeError;
use crate::types::lang::{lang_code_chars, LangCode};
use crate::types::rand_id::RandID;

verus! {

/// No two entries read the same.
pub open spec fn unique_views(ts: Seq<Seq<char>>) -> bool {
    forall|i: int, j: int| 0 <= i < j < ts.len() ==> ts[i] != ts[j]
}

/// The entries joined with a comma between each two.
pub open spec fn join_comma_chars(ts: Seq<Seq<char>>) -> Seq<char>
    decreases ts.len(),
{
    if ts.len() == 0 {
        Seq::empty()
    } else if ts.len() == 1 {
        ts[0]
    } else {
        join_comma_chars(ts.drop_last()) + ","@ + ts.last()
    }
}

/// The full start-chat URL: fixed capabilities, an empty `spid`, the random
/// identifier, the verification code, the comma-joined topics — omitted
/// entirely when there are none, as the service distinguishes "no
/// preference" from "empty preference" — and the language code.
pub open spec fn start_url_chars(
    server: ChatServer,
    rand: Seq<char>,
    cc: Seq<char>,
    topics: Seq<Seq<char>>,
    lang: LangCode,
) -> Seq<char> {
    "http://"@ + chat_server_chars(server.id_number as nat)
        + ".omegle.com/start?caps=recaptcha2,t3&spid=&randid="@ + rand + "&cc="@ + cc + (
    if topics.len() == 0 {
        Seq::<char>::empty()
    } else {
        "&topics="@ + join_comma_chars(topics)
    }) + "&lang="@ + lang_code_chars(lang)
}

/// The verification URL posted to during the handshake.
pub open spec fn check_url_chars(check_digit: nat) -> Seq<char> {
    "http://"@ + check_server_chars(check_digit) + "/check"@
}

proof fn lemma_contains_push(s: Seq<Seq<char>>, x: Seq<char>, y: Seq<char>)
    ensures
        s.push(x).contains(y) <==> (s.contains(y) || x == y),
{
    assert(s.push(x)[s.len() as int] == x);
    if s.push(x).contains(y) {
        let k = choose|k: int| 0 <= k < s.push(x).len() && s.push(x)[k] == y;
        if k < s.len() {
            assert(s[k] == y);
        }
    }
    if s.contains(y) {
        let k = choose|k: int| 0 <= k < s.len() && s[k] == y;
        assert(s.push(x)[k] == y);
    }
}

/// Whether one of the entries reads as `s`.
fn contains_string(v: &Vec<String>, s: &str) -> (r: bool)
    ensures
        r <==> v.deep_view().contains(s@),
{
    let n = v.len();
    let mut i: usize = 0;
    while i < n
        invariant
            0 <= i <= n,
            n == v@.len(),
            forall|j: int| 0 <= j < i ==> v.deep_view()[j] != s@,
        decreases n - i,
    {
        if str_eq(v[i].as_str(), s) {
            assert(v.deep_view()[i as int] == s@);
            return true;
        }
        i = i + 1;
    }
    proof {
        assert forall|j: int| 0 <= j < v.deep_view().len() implies v.deep_view()[j] != s@ by {}
    }
    false
}

/// Joins the entries with commas, in order.
fn join_comma(ts: &Vec<String>) -> (r: String)
    ensures
        r@ == join_comma_chars(ts.deep_view()),
{
    let mut out = String::new();
    let n = ts.len();
    let mut i: usize = 0;
    proof {
        assert(ts.deep_view().take(0) =~= Seq::<Seq<char>>::empty());
    }
    while i < n
        invariant
            0 <= i <= n,
            n == ts@.len(),
            out@ == join_comma_chars(ts.deep_view().take(i as int)),
        decreases n - i,
    {
        if i > 0 {
            out.append(",");
        }
        out.append(ts[i].as_str());
        proof {
            reveal_strlit(",");
            let dv = ts.deep_view();
            assert(dv.take(i + 1).drop_last() =~= dv.take(i as int));
            assert(dv.take(i + 1).last() == dv[i as int]);
            if i == 0 {
                assert(out@ =~= join_comma_chars(dv.take(1)));
            } else {
                assert(out@ =~= join_comma_chars(dv.take(i as int)) + ","@ + dv[i as int]);
            }
        }
        i = i + 1;
    }
    proof {
        assert(ts.deep_view().take(n as int) =~= ts.deep_view());
    }
    out
}

/// An Omegle client: a factory for new chat sessions, carrying the fresh
/// random identifier, the resolved status, the topics and the language.
#[derive(Debug)]
pub struct Omegle {
    pub rand_id: RandID,
    pub status: OmegleStatus,
    pub topics: Vec<String>,
    pub lang: LangCode,
}

impl Omegle {
    /// A well-formed client holds a well-formed status and identifier, and
    /// no topic twice.
    pub open spec fn wf(&self) -> bool {
        &&& self.status.wf()
        &&& self.rand_id.wf()
        &&& unique_views(self.topics.deep_view())
    }

    /// Builds a client from a resolved status and the caller's
    /// preferences, generating a fresh random identifier and keeping each
    /// topic once, in first-seen order.
    pub fn new(status: OmegleStatus, topics: Vec<String>, lang: LangCode) -> (r: Omegle)
        requires
            status.wf(),
        ensures
            r.status == status,
            r.lang == lang,
            r.rand_id.wf(),
            unique_views(r.topics.deep_view()),
            forall|s: Seq<char>| #[trigger]
                r.topics.deep_view().contains(s) <==> topics.deep_view().contains(s),
            r.wf(),
    {
        let mut uniq: Vec<String> = Vec::new();
        let n = topics.len();
        let mut i: usize = 0;
        proof {
            assert(topics.deep_view().take(0) =~= Seq::<Seq<char>>::empty());
        }
        while i < n
            invariant
                0 <= i <= n,
                n == topics@.len(),
                unique_views(uniq.deep_view()),
                forall|s: Seq<char>| #[trigger]
                    uniq.deep_view().contains(s) <==> topics.deep_view().take(
                        i as int,
                    ).contains(s),
            decreases n - i,
        {
            let ghost pre = uniq.deep_view();
            let ghost tv = topics.deep_view()[i as int];
            let t = &topics[i];
            let absent = !contains_string(&uniq, t.as_str());
            if absent {
                uniq.push(t.clone());
                proof {
                    assert(uniq.deep_view() =~= pre.push(tv));
                    assert forall|a: int, b: int|
                        0 <= a < b < uniq.deep_view().len() implies uniq.deep_view()[a]
                        != uniq.deep_view()[b] by {
                        if b == pre.len() {
                            assert(pre.contains(uniq.deep_view()[a]) || !(pre[a]
                                == uniq.deep_view()[b]));
                        }
                    }
                }
            }
            proof {
                let dv = topics.deep_view();
                assert(dv.take(i + 1) =~= dv.take(i as int).push(tv));
                assert forall|s: Seq<char>| #[trigger]
                    uniq.deep_view().contains(s) <==> dv.take(i + 1).contains(s) by {
                    lemma_contains_push(dv.take(i as int), tv, s);
                    if absent {
                        lemma_contains_push(pre, tv, s);
                    } else {
                        if s == tv {
                            assert(uniq.deep_view().contains(s));
                        }
                    }
                }
            }
            i = i + 1;
        }
        proof {
            assert(topics.deep_view().take(n as int) =~= topics.deep_view());
        }
        Omegle { rand_id: RandID::new(), status, topics: uniq, lang }
    }

    /// Replaces the language preference.
    pub fn update_lang(&mut self, new_lang: LangCode)
        ensures
            final(self).lang == new_lang,
            final(self).rand_id == old(self).rand_id,
            final(self).status == old(self).status,
            final(self).topics == old(self).topics,
            old(self).wf() ==> final(self).wf(),
    {
        self.lang = new_lang;
    }

    /// The currently selected language.
    pub fn get_current_lang(&self) -> (r: LangCode)
        ensures
            r == self.lang,
    {
        self.lang
    }

    /// Adds a topic; returns false (and changes nothing) when it was
    /// already present.
    pub fn add_interest(&mut self, new_interest: &str) -> (r: bool)
        ensures
            r <==> !old(self).topics.deep_view().contains(new_interest@),
            final(self).rand_id == old(self).rand_id,
            final(self).status == old(self).status,
            final(self).lang == old(self).lang,
            r ==> final(self).topics.deep_view() == old(self).topics.deep_view().push(
                new_interest@,
            ),
            !r ==> final(self).topics == old(self).topics,
            old(self).wf() ==> final(self).wf(),
    {
        if contains_string(&self.topics, new_interest) {
            return false;
        }
        let ghost pre = self.topics.deep_view();
        self.topics.push(String::from_str(new_interest));
        proof {
            assert(self.topics.deep_view() =~= pre.push(new_interest@));
            assert forall|a: int, b: int|
                0 <= a < b < self.topics.deep_view().len() && unique_views(pre) implies self
                .topics.deep_view()[a] != self.topics.deep_view()[b] by {
                if b == pre.len() && pre[a] == new_interest@ {
                    assert(pre.contains(new_interest@));
                }
            }
        }
        true
    }

    /// Removes a topic; returns false (and changes nothing) when it was
    /// not present. The first entry reading as the topic is removed.
    pub fn remove_interest(&mut self, interest_to_remove: &str) -> (r: bool)
        ensures
            r <==> old(self).topics.deep_view().contains(interest_to_remove@),
            final(self).rand_id == old(self).rand_id,
            final(self).status == old(self).status,
            final(self).lang == old(self).lang,
            !r ==> final(self).topics == old(self).topics,
            r ==> exists|j: int|
                0 <= j < old(self).topics.deep_view().len() && old(self).topics.deep_view()[j]
                    == interest_to_remove@ && final(self).topics.deep_view() == old(
                self,
            ).topics.deep_view().remove(j),
            old(self).wf() ==> final(self).wf(),
    {
        let n = self.topics.len();
        let mut i: usize = 0;
        while i < n
            invariant
                0 <= i <= n,
                n == self.topics@.len(),
                *self == *old(self),
                forall|k: int| 0 <= k < i ==> self.topics.deep_view()[k] != interest_to_remove@,
            decreases n - i,
        {
            if str_eq(self.topics[i].as_str(), interest_to_remove) {
                let ghost pre = self.topics.deep_view();
                let ghost j = i as int;
                self.topics.remove(i);
                proof {
                    assert(pre[j] == interest_to_remove@);
                    assert(pre.contains(interest_to_remove@));
                    assert(self.topics.deep_view() =~= pre.remove(j));
                    assert forall|a: int, b: int|
                        0 <= a < b < self.topics.deep_view().len() && unique_views(pre) implies
                        self.topics.deep_view()[a] != self.topics.deep_view()[b] by {
                        assert(self.topics.deep_view()[a] == if a < j {
                            pre[a]
                        } else {
                            pre[a + 1]
                        });
                        assert(self.topics.deep_view()[b] == if b < j {
                            pre[b]
                        } else {
                            pre[b + 1]
                        });
                    }
                }
                return true;
            }
            i = i + 1;
        }
        proof {
            assert forall|k: int|
                0 <= k < self.topics.deep_view().len() implies self.topics.deep_view()[k]
                != interest_to_remove@ by {}
        }
        false
    }

    /// The current topics, in order, as owned strings.
    pub fn get_current_interests(&self) -> (r: Vec<String>)
        ensures
            r.deep_view() == self.topics.deep_view(),
    {
        let n = self.topics.len();
        let mut out: Vec<String> = Vec::new();
        let mut i: usize = 0;
        while i < n
            invariant
                0 <= i <= n,
                n == self.topics@.len(),
                out@.len() == i,
                forall|k: int| 0 <= k < i ==> out.deep_view()[k] == self.topics.deep_view()[k],
            decreases n - i,
        {
            let ghost pre = out.deep_view();
            let t = self.topics[i].clone();
            out.push(t);
            proof {
                assert(out.deep_view() =~= pre.push(self.topics.deep_view()[i as int]));
            }
            i = i + 1;
        }
        proof {
            assert(out.deep_view() =~= self.topics.deep_view());
        }
        out
    }

    /// The current topics, in order, as owned strings. An iterator cannot
    /// be handed out here, so the walk is materialized.
    pub fn get_current_interests_iter(&self) -> (r: Vec<String>)
        ensures
            r.deep_view() == self.topics.deep_view(),
    {
        self.get_current_interests()
    }

    /// The verification URL for the handshake: the first check server.
    pub fn check_url(&self) -> (r: String)
        requires
            self.wf(),
        ensures
            r@ == check_url_chars(self.status.antinudeservers@[0].0 as nat),
    {
        let cs = self.status.get_check_server();
        let mut out = String::new();
        out.append("http://");
        let host = cs.encode();
        out.append(host.as_str());
        out.append("/check");
        proof {
            assert(out@ =~= check_url_chars(self.status.antinudeservers@[0].0 as nat));
        }
        out
    }

    /// The start-chat URL, carrying the verification code the handshake
    /// returned.
    pub fn start_url(&self, check_code: &str) -> (r: String)
        requires
            self.wf(),
        ensures
            r@ == start_url_chars(
                self.status.servers@[0],
                self.rand_id.id@,
                check_code@,
                self.topics.deep_view(),
                self.lang,
            ),
    {
        let server = self.status.get_chat_server();
        let mut out = String::new();
        out.append("http://");
        push_front_string(&mut out, server.id_number);
        out.append(".omegle.com/start?caps=recaptcha2,t3&spid=&randid=");
        let rid = self.rand_id.encode();
        out.append(rid.as_str());
        out.append("&cc=");
        out.append(check_code);
        if self.topics.len() > 0 {
            out.append("&topics=");
            let joined = join_comma(&self.topics);
            out.append(joined.as_str());
        }
        out.append("&lang=");
        out.append(self.lang.code());
        proof {
            assert(out@ =~= start_url_chars(
                self.status.servers@[0],
                self.rand_id.id@,
                check_code@,
                self.topics.deep_view(),
                self.lang,
            ));
        }
        out
    }

    /// Turns the start-chat response body into a session bound to the
    /// selected chat server; fails exactly when the body is not a valid
    /// client identifier.
    pub fn make_session(&self, response_body: &str) -> (r: Result<ChatSession, DecodeError>)
        requires
            self.wf(),
        ensures
            r is Ok <==> client_id_decode_spec(response_body@) is Some,
            r matches Ok(cs) ==> cs.server == self.status.servers@[0] && client_id_decode_spec(
                response_body@,
            ) == Some((cs.client_id.server_type, cs.client_id.server_id, cs.client_id.user_id@))
                && cs.wf(),
            r matches Err(e) ==> e == client_id_decode_error(response_body@),
    {
        match ClientID::decode(response_body) {
            Ok(client_id) => Ok(ChatSession::new(client_id, self.status.get_chat_server())),
            Err(e) => Err(e),
        }
    }
}

} // verus!
