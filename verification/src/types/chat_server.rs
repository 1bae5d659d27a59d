//! The front-server identifier: the literal prefix "front" followed by a
//! decimal numeral fitting `u8`.

use vstd::prelude::*;
use vstd::string::*;

use crate::numerals::{
    all_digits, dec_digits, dec_value, lemma_dec_digits_value, lemma_dec_digits_wf, push_u8_decimal,
    parse_u8,
};
use crate::strutil::{spec_starts_with, starts_with};
use crate::types::error::DecodeError;

verus! {

/// One of the service's front-end hosts (front1, front2, ...). They all
/// follow the pattern 'front' + number, so only the number is stored.
#[derive(Clone, Copy, Debug, PartialEq, Eq, Structural)]
pub struct ChatServer {
    pub id_number: u8,
}

/// The canonical encoding "front{n}".
pub open spec fn chat_server_chars(n: nat) -> Seq<char> {
    "front"@ + dec_digits(n)
}

/// What decoding a front-server string yields: the numeral's value, provided
/// the string starts with "front", the numeral is non-empty, every remaining
/// character is a digit and the value fits `u8`.
pub open spec fn chat_server_decode_spec(s: Seq<char>) -> Option<u8> {
    if !spec_starts_with(s, "front"@) {
        None
    } else {
        let num = s.skip("front"@.len() as int);
        if num.len() == 0 {
            None
        } else if all_digits(num) && dec_value(num) <= 255 {
            Some(dec_value(num) as u8)
        } else {
            None
        }
    }
}

/// Which error a rejected front-server string draws.
pub open spec fn chat_server_decode_error(s: Seq<char>) -> DecodeError
    recommends
        chat_server_decode_spec(s) is None,
{
    if !spec_starts_with(s, "front"@) {
        DecodeError::ServerPrefix
    } else if s.len() == "front"@.len() {
        DecodeError::ServerNoId
    } else {
        DecodeError::ServerId
    }
}

impl ChatServer {
    /// The numeric part of the identifier.
    pub fn id_number(&self) -> (r: u8)
        ensures
            r == self.id_number,
    {
        self.id_number
    }

    /// Decodes a front-server string, rejecting anything that does not match
    /// the "front{n}" pattern with `n` fitting `u8`.
    pub fn decode(s: &str) -> (r: Result<ChatServer, DecodeError>)
        ensures
            r is Ok <==> chat_server_decode_spec(s@) is Some,
            r matches Ok(cs) ==> chat_server_decode_spec(s@) == Some(cs.id_number),
            r matches Err(e) ==> e == chat_server_decode_error(s@),
    {
        proof {
            reveal_strlit("front");
        }
        if !starts_with(s, "front") {
            return Err(DecodeError::ServerPrefix);
        }
        let n = s.unicode_len();
        let num = s.substring_char(5, n);
        proof {
            assert(num@ =~= s@.skip(5));
        }
        if n == 5 {
            return Err(DecodeError::ServerNoId);
        }
        match parse_u8(num) {
            Some(v) => Ok(ChatServer { id_number: v }),
            None => Err(DecodeError::ServerId),
        }
    }

    /// Encodes back to the canonical "front{n}" string.
    pub fn encode(&self) -> (r: String)
        ensures
            r@ == chat_server_chars(self.id_number as nat),
    {
        let mut out = String::new();
        push_front_string(&mut out, self.id_number);
        proof {
            assert(out@ =~= chat_server_chars(self.id_number as nat));
        }
        out
    }
}

/// Appends the canonical "front{n}" string to `out`.
pub fn push_front_string(out: &mut String, n: u8)
    ensures
        final(out)@ == old(out)@ + chat_server_chars(n as nat),
{
    proof {
        reveal_strlit("front");
    }
    out.append("front");
    push_u8_decimal(out, n);
    proof {
        assert(final(out)@ =~= old(out)@ + chat_server_chars(n as nat));
    }
}

impl From<u8> for ChatServer {
    /// Wraps a raw front-server number.
    fn from(value: u8) -> (r: ChatServer) {
        ChatServer { id_number: value }
    }
}

impl vstd::std_specs::convert::FromSpecImpl<u8> for ChatServer {
    open spec fn obeys_from_spec() -> bool {
        true
    }

    open spec fn from_spec(v: u8) -> ChatServer {
        ChatServer { id_number: v }
    }
}

/// Decoding the canonical encoding of any `n` recovers exactly `n`: encode
/// and decode are mutually inverse on well-formed identifiers.
pub proof fn lemma_chat_server_round_trip(n: u8)
    ensures
        chat_server_decode_spec(chat_server_chars(n as nat)) == Some(n),
{
    reveal_strlit("front");
    lemma_dec_digits_wf(n as nat);
    lemma_dec_digits_value(n as nat);
    let s = chat_server_chars(n as nat);
    assert(s.subrange(0, 5) =~= "front"@);
    assert(s.skip(5) =~= dec_digits(n as nat));
}

/// Re-encoding a decoded front-server string reproduces the input exactly,
/// provided the input's numeral is in canonical form (no leading zeros).
pub proof fn lemma_chat_server_decode_encode(s: Seq<char>)
    requires
        chat_server_decode_spec(s) is Some,
        s.skip("front"@.len() as int) == dec_digits(dec_value(s.skip("front"@.len() as int))),
    ensures
        chat_server_chars(chat_server_decode_spec(s).unwrap() as nat) == s,
{
    reveal_strlit("front");
    let num = s.skip(5);
    assert(chat_server_chars(dec_value(num)) =~= "front"@ + dec_digits(dec_value(num)));
    assert(s =~= "front"@ + num);
}

} // verus!
