//! The verification-server identifier: "waw" + one decimal digit +
//! ".omegle.com", fifteen characters in all.

use vstd::prelude::*;
use vstd::string::*;

use crate::numerals::{digit_char, digit_str, is_digit};
use crate::strutil::{ends_with, spec_ends_with, spec_starts_with, starts_with};
use crate::types::error::DecodeError;

verus! {

/// A verification host, used once during the session handshake. Only the
/// single digit between "waw" and ".omegle.com" is stored.
#[derive(Clone, Copy, Debug, PartialEq, Eq, Structural)]
pub struct CheckServer(pub u8);

impl CheckServer {
    /// A well-formed verification-server number is a single decimal digit.
    pub open spec fn wf(&self) -> bool {
        self.0 < 10
    }

    /// The digit identifying the host.
    pub fn digit(&self) -> (r: u8)
        ensures
            r == self.0,
    {
        self.0
    }

    /// Decodes a verification-server string, rejecting anything but the
    /// exact fifteen-character "waw{d}.omegle.com" shape.
    pub fn decode(s: &str) -> (r: Result<CheckServer, DecodeError>)
        ensures
            r is Ok <==> check_server_decode_spec(s@) is Some,
            r matches Ok(cs) ==> check_server_decode_spec(s@) == Some(cs.0) && cs.wf(),
            r matches Err(e) ==> e == check_server_decode_error(s@),
    {
        proof {
            reveal_strlit("waw");
            reveal_strlit(".omegle.com");
        }
        let n = s.unicode_len();
        if n != 15 {
            return Err(DecodeError::CheckServerFormat);
        }
        if !starts_with(s, "waw") || !ends_with(s, ".omegle.com") {
            return Err(DecodeError::CheckServerFormat);
        }
        let c = s.get_char(3);
        let cv = c as u32;
        if cv < 48 || cv > 57 {
            proof {
                assert(!is_digit(s@[3]));
            }
            return Err(DecodeError::CheckServerId);
        }
        Ok(CheckServer((cv - 48) as u8))
    }

    /// Encodes back to the canonical "waw{d}.omegle.com" string.
    pub fn encode(&self) -> (r: String)
        requires
            self.wf(),
        ensures
            r@ == check_server_chars(self.0 as nat),
    {
        proof {
            reveal_strlit("waw");
            reveal_strlit(".omegle.com");
        }
        let mut out = String::new();
        out.append("waw");
        out.append(digit_str(self.0));
        out.append(".omegle.com");
        proof {
            assert(out@ =~= check_server_chars(self.0 as nat));
        }
        out
    }
}

/// The canonical encoding "waw{d}.omegle.com" of a single digit `d`.
pub open spec fn check_server_chars(d: nat) -> Seq<char> {
    "waw"@ + seq![digit_char(d)] + ".omegle.com"@
}

/// What decoding a verification-server string yields: the digit after "waw",
/// provided the string is exactly fifteen characters, carries the stated
/// prefix and suffix, and the fourth character is a decimal digit.
pub open spec fn check_server_decode_spec(s: Seq<char>) -> Option<u8> {
    if s.len() == 15 && spec_starts_with(s, "waw"@) && spec_ends_with(s, ".omegle.com"@) {
        if is_digit(s[3]) {
            Some((s[3] as int - '0' as int) as u8)
        } else {
            None
        }
    } else {
        None
    }
}

/// Which error a rejected verification-server string draws.
pub open spec fn check_server_decode_error(s: Seq<char>) -> DecodeError
    recommends
        check_server_decode_spec(s) is None,
{
    if s.len() == 15 && spec_starts_with(s, "waw"@) && spec_ends_with(s, ".omegle.com"@) {
        DecodeError::CheckServerId
    } else {
        DecodeError::CheckServerFormat
    }
}

/// Decoding the canonical encoding of any digit recovers exactly that digit:
/// encode and decode are mutually inverse on well-formed identifiers.
pub proof fn lemma_check_server_round_trip(d: u8)
    requires
        d < 10,
    ensures
        check_server_decode_spec(check_server_chars(d as nat)) == Some(d),
{
    reveal_strlit("waw");
    reveal_strlit(".omegle.com");
    let s = check_server_chars(d as nat);
    assert(s.subrange(0, 3) =~= "waw"@);
    assert(s.subrange(4, 15) =~= ".omegle.com"@);
    assert(s.subrange(s.len() - 11, s.len() as int) =~= ".omegle.com"@);
    assert(s[3] == digit_char(d as nat));
    crate::numerals::lemma_digit_char_val(d as nat);
}

/// Re-encoding a decoded verification-server string reproduces the input
/// exactly: the codec loses nothing on any string it accepts.
pub proof fn lemma_check_server_decode_encode(s: Seq<char>)
    requires
        check_server_decode_spec(s) is Some,
    ensures
        check_server_chars(check_server_decode_spec(s).unwrap() as nat) == s,
{
    reveal_strlit("waw");
    reveal_strlit(".omegle.com");
    let d = check_server_decode_spec(s).unwrap();
    crate::numerals::lemma_digit_char_of_val(s[3]);
    assert(digit_char(d as nat) == s[3]);
    let enc = check_server_chars(d as nat);
    assert forall|i: int| 0 <= i < 15 implies enc[i] == s[i] by {
        if i < 3 {
            assert(s.subrange(0, 3)[i] == s[i]);
        } else if i >= 4 {
            assert(s.subrange(4, 15)[i - 4] == s[i]);
            assert(s.subrange(s.len() - 11, s.len() as int) =~= s.subrange(4, 15));
        }
    }
    assert(enc =~= s);
}

} // verus!
