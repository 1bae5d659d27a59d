//! The first iteration of the front-server codec, kept beside the final
//! one: the same "front{n}" grammar under the name `Server`.

use vstd::prelude::*;
use vstd::string::*;

use crate::numerals::parse_u8;
use crate::strutil::starts_with;
use crate::types::chat_server::{
    chat_server_chars, chat_server_decode_error, chat_server_decode_spec, push_front_string,
};
use crate::types::error::DecodeError;

verus! {

/// An omegle front server (front1, front2, ...): a wrapper for the `u8`
/// after the 'front' prefix.
#[derive(Debug, Clone, Copy, PartialEq, Eq, Structural)]
pub struct Server {
    pub id_number: u8,
}

impl From<u8> for Server {
    /// Wraps a raw front-server number.
    fn from(value: u8) -> (r: Server) {
        Server { id_number: value }
    }
}

impl vstd::std_specs::convert::FromSpecImpl<u8> for Server {
    open spec fn obeys_from_spec() -> bool {
        true
    }

    open spec fn from_spec(v: u8) -> Server {
        Server { id_number: v }
    }
}

impl Server {
    /// Decodes a front-server string, rejecting anything that does not
    /// match the "front{n}" pattern with `n` fitting `u8`.
    pub fn decode(s: &str) -> (r: Result<Server, DecodeError>)
        ensures
            r is Ok <==> chat_server_decode_spec(s@) is Some,
            r matches Ok(sv) ==> chat_server_decode_spec(s@) == Some(sv.id_number),
            r matches Err(e) ==> e == chat_server_decode_error(s@),
    {
        proof {
            reveal_strlit("front");
        }
        if !starts_with(s, "front") {
            return Err(DecodeError::ServerPrefix);
        }
        let n = s.unicode_len();
        let num = s.substring_char(5, n);
        proof {
            assert(num@ =~= s@.skip(5));
        }
        if n == 5 {
            return Err(DecodeError::ServerNoId);
        }
        match parse_u8(num) {
            Some(v) => Ok(Server { id_number: v }),
            None => Err(DecodeError::ServerId),
        }
    }

    /// Encodes back to the canonical "front{n}" string.
    pub fn encode(&self) -> (r: String)
        ensures
            r@ == chat_server_chars(self.id_number as nat),
    {
        let mut out = String::new();
        push_front_string(&mut out, self.id_number);
        proof {
            assert(out@ =~= chat_server_chars(self.id_number as nat));
        }
        out
    }
}

} // verus!
