//! The composite client identifier handed out on session start:
//! a server-type tag, a decimal server index fitting `u8`, and a fixed
//! 30-character opaque token — "{tag}{index}:{token}".

use vstd::prelude::*;
use vstd::string::*;

use crate::numerals::{
    all_digits, dec_digits, dec_value, lemma_dec_digits_value, lemma_dec_digits_wf,
    push_u8_decimal, parse_u8,
};
use crate::strutil::{spec_starts_with, starts_with};
use crate::types::error::DecodeError;

verus! {

/// The server-type tag at the front of a client identifier.
#[derive(Clone, Copy, Debug, PartialEq, Eq, Structural)]
pub enum ServerType {
    Central,
    Shard,
    Spike,
}

/// The literal spelling of each server-type tag.
pub open spec fn server_type_chars(t: ServerType) -> Seq<char> {
    match t {
        ServerType::Central => "central"@,
        ServerType::Shard => "shard"@,
        ServerType::Spike => "spike"@,
    }
}

impl ServerType {
    /// The literal spelling of the tag.
    pub fn as_str(&self) -> (r: &'static str)
        ensures
            r@ == server_type_chars(*self),
    {
        match self {
            ServerType::Central => "central",
            ServerType::Shard => "shard",
            ServerType::Spike => "spike",
        }
    }
}

/// The client identifier: held for the lifetime of a chat session and sent
/// as the correlation key on every action and poll request.
#[derive(Clone, Debug)]
pub struct ClientID {
    pub server_type: ServerType,
    pub server_id: u8,
    pub user_id: Vec<char>,
}

/// The canonical encoding "{tag}{index}:{token}".
pub open spec fn client_id_chars(t: ServerType, n: nat, token: Seq<char>) -> Seq<char> {
    server_type_chars(t) + dec_digits(n) + ":"@ + token
}

/// The recognized tag at the front of `s`, if any. "central" is tested
/// first; the three tags are mutually prefix-free, so order cannot matter.
pub open spec fn spec_tag_of(s: Seq<char>) -> Option<ServerType> {
    if spec_starts_with(s, "central"@) {
        Some(ServerType::Central)
    } else if spec_starts_with(s, "shard"@) {
        Some(ServerType::Shard)
    } else if spec_starts_with(s, "spike"@) {
        Some(ServerType::Spike)
    } else {
        None
    }
}

/// What decoding a client identifier yields: the tag, the value of the
/// numeral between the tag and the final 31 characters, and the final 30
/// characters as the token. The numeral segment is located by offset
/// arithmetic alone — tag length from the front, token length from the back.
pub open spec fn client_id_decode_spec(s: Seq<char>) -> Option<(ServerType, u8, Seq<char>)> {
    if s.len() < 30 {
        None
    } else {
        match spec_tag_of(s) {
            None => None,
            Some(t) => {
                let tl = server_type_chars(t).len() as int;
                if s.len() < 31 + tl {
                    None
                } else {
                    let num = s.subrange(tl, s.len() - 31);
                    if num.len() > 0 && all_digits(num) && dec_value(num) <= 255 {
                        Some((t, dec_value(num) as u8, s.subrange(s.len() - 30, s.len() as int)))
                    } else {
                        None
                    }
                }
            },
        }
    }
}

/// Which error a rejected client identifier draws.
pub open spec fn client_id_decode_error(s: Seq<char>) -> DecodeError
    recommends
        client_id_decode_spec(s) is None,
{
    if s.len() < 30 {
        DecodeError::ClientIdTooShort
    } else {
        match spec_tag_of(s) {
            None => DecodeError::ClientIdTag,
            Some(t) => {
                if s.len() < 31 + server_type_chars(t).len() {
                    DecodeError::ClientIdNoNumeral
                } else {
                    DecodeError::ClientIdNumeral
                }
            },
        }
    }
}

impl ClientID {
    /// A well-formed client identifier carries exactly 30 token characters.
    pub open spec fn wf(&self) -> bool {
        self.user_id@.len() == 30
    }

    /// The server-type tag.
    pub fn server_type(&self) -> (r: ServerType)
        ensures
            r == self.server_type,
    {
        self.server_type
    }

    /// The numeric server index.
    pub fn server_id(&self) -> (r: u8)
        ensures
            r == self.server_id,
    {
        self.server_id
    }

    /// Decodes a client identifier string: the tag is matched from the
    /// front, the 30-character token is taken from the back, and whatever
    /// stands between tag and the character before the token must be a
    /// numeral fitting `u8`.
    pub fn decode(s: &str) -> (r: Result<ClientID, DecodeError>)
        ensures
            r is Ok <==> client_id_decode_spec(s@) is Some,
            r matches Ok(cid) ==> client_id_decode_spec(s@) == Some(
                (cid.server_type, cid.server_id, cid.user_id@),
            ) && cid.wf(),
            r matches Err(e) ==> e == client_id_decode_error(s@),
    {
        proof {
            reveal_strlit("central");
            reveal_strlit("shard");
            reveal_strlit("spike");
        }
        let n = s.unicode_len();
        if n < 30 {
            return Err(DecodeError::ClientIdTooShort);
        }
        let (t, tl): (ServerType, usize) = if starts_with(s, "central") {
            (ServerType::Central, 7)
        } else if starts_with(s, "shard") {
            (ServerType::Shard, 5)
        } else if starts_with(s, "spike") {
            (ServerType::Spike, 5)
        } else {
            return Err(DecodeError::ClientIdTag);
        };
        if n < 31 + tl {
            return Err(DecodeError::ClientIdNoNumeral);
        }
        let num = s.substring_char(tl, n - 31);
        proof {
            assert(num@ =~= s@.subrange(tl as int, s@.len() - 31));
        }
        match parse_u8(num) {
            None => Err(DecodeError::ClientIdNumeral),
            Some(v) => {
                let mut token: Vec<char> = Vec::new();
                let mut i: usize = 0;
                while i < 30
                    invariant
                        0 <= i <= 30,
                        n == s@.len(),
                        n >= 30,
                        token@.len() == i,
                        forall|j: int| 0 <= j < i ==> token@[j] == s@[n - 30 + j],
                    decreases 30 - i,
                {
                    token.push(s.get_char(n - 30 + i));
                    i = i + 1;
                }
                proof {
                    assert(token@ =~= s@.subrange(s@.len() - 30, s@.len() as int));
                }
                Ok(ClientID { server_type: t, server_id: v, user_id: token })
            },
        }
    }

    /// Encodes back to the canonical "{tag}{index}:{token}" string.
    pub fn encode(&self) -> (r: String)
        requires
            self.wf(),
        ensures
            r@ == client_id_chars(self.server_type, self.server_id as nat, self.user_id@),
    {
        proof {
            reveal_strlit(":");
        }
        let mut out = String::new();
        out.append(self.server_type.as_str());
        push_u8_decimal(&mut out, self.server_id);
        out.append(":");
        let mut i: usize = 0;
        while i < self.user_id.len()
            invariant
                0 <= i <= self.user_id@.len(),
                out@ == (Seq::<char>::empty() + server_type_chars(self.server_type) + dec_digits(
                    self.server_id as nat,
                ) + ":"@) + self.user_id@.take(i as int),
            decreases self.user_id@.len() - i,
        {
            out.push(self.user_id[i]);
            proof {
                assert(self.user_id@.take(i as int).push(self.user_id@[i as int]) =~= self
                    .user_id@.take(i + 1));
            }
            i = i + 1;
        }
        proof {
            assert(self.user_id@.take(self.user_id@.len() as int) =~= self.user_id@);
            assert(out@ =~= client_id_chars(self.server_type, self.server_id as nat, self.user_id@));
        }
        out
    }
}

/// Every string of the form "{tag}{n}:{30-character token}", with `n` in
/// canonical decimal form, decodes successfully and recovers exactly the
/// tag, the index and the token.
pub proof fn lemma_client_id_round_trip(t: ServerType, n: u8, token: Seq<char>)
    requires
        token.len() == 30,
    ensures
        client_id_decode_spec(client_id_chars(t, n as nat, token)) == Some((t, n, token)),
{
    reveal_strlit("central");
    reveal_strlit("shard");
    reveal_strlit("spike");
    reveal_strlit(":");
    lemma_dec_digits_wf(n as nat);
    lemma_dec_digits_value(n as nat);
    let tag = server_type_chars(t);
    let s = client_id_chars(t, n as nat, token);
    let tl = tag.len() as int;
    let dlen = dec_digits(n as nat).len() as int;
    assert(s.len() == tl + dlen + 1 + 30);
    assert(s.subrange(0, tl) =~= tag);
    match t {
        ServerType::Central => {
            assert(spec_starts_with(s, "central"@));
        },
        ServerType::Shard => {
            assert(spec_starts_with(s, "shard"@));
            assert(!spec_starts_with(s, "central"@)) by {
                if spec_starts_with(s, "central"@) {
                    assert(s.subrange(0, "central"@.len() as int)[0] == 'c');
                    assert(s[0] == 's');
                }
            }
        },
        ServerType::Spike => {
            assert(spec_starts_with(s, "spike"@));
            assert(!spec_starts_with(s, "central"@)) by {
                if spec_starts_with(s, "central"@) {
                    assert(s.subrange(0, "central"@.len() as int)[0] == 'c');
                    assert(s[0] == 's');
                }
            }
            assert(!spec_starts_with(s, "shard"@)) by {
                if spec_starts_with(s, "shard"@) {
                    assert(s.subrange(0, "shard"@.len() as int)[1] == 'h');
                    assert(s[1] == 'p');
                }
            }
        },
    }
    assert(spec_tag_of(s) == Some(t));
    assert(s.subrange(tl, s.len() - 31) =~= dec_digits(n as nat));
    assert(s.subrange(s.len() - 30, s.len() as int) =~= token);
}

/// Every string shorter than 30 characters, or without a recognized
/// leading tag, fails to decode.
pub proof fn lemma_client_id_rejects(s: Seq<char>)
    requires
        s.len() < 30 || spec_tag_of(s) is None,
    ensures
        client_id_decode_spec(s) is None,
{
}

/// Re-encoding a decoded client identifier reproduces the input exactly,
/// provided the numeral is canonical and the separator position really
/// holds a colon — the decoder locates fields by offset alone and never
/// reads that position.
pub proof fn lemma_client_id_decode_encode(s: Seq<char>)
    requires
        client_id_decode_spec(s) is Some,
        ({
            let t = spec_tag_of(s).unwrap();
            let tl = server_type_chars(t).len() as int;
            s.subrange(tl, s.len() - 31) == dec_digits(
                dec_value(s.subrange(tl, s.len() - 31)),
            )
        }),
        s[s.len() - 31] == ':',
    ensures
        ({
            let (t, n, token) = client_id_decode_spec(s).unwrap();
            client_id_chars(t, n as nat, token) == s
        }),
{
    reveal_strlit(":");
    let t = spec_tag_of(s).unwrap();
    let tag = server_type_chars(t);
    let tl = tag.len() as int;
    let num = s.subrange(tl, s.len() - 31);
    let token = s.subrange(s.len() - 30, s.len() as int);
    assert(s.subrange(0, tl) == tag) by {
        reveal_strlit("central");
        reveal_strlit("shard");
        reveal_strlit("spike");
    }
    let enc = client_id_chars(t, dec_value(num), token);
    assert(enc =~= s) by {
        assert(s.len() >= 31 + tl);
        assert(enc.len() == tl + num.len() + 1 + 30);
        assert forall|i: int| 0 <= i < s.len() implies enc[i] == s[i] by {
            if i < tl {
                assert(enc[i] == tag[i]);
                assert(s.subrange(0, tl)[i] == s[i]);
            } else if i < s.len() - 31 {
                assert(enc[i] == num[i - tl]);
            } else if i == s.len() - 31 {
                assert(enc[i] == ":"@[0]);
            } else {
                assert(enc[i] == token[i - (s.len() - 30)]);
            }
        }
    }
}

} // verus!
