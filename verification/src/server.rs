//! The first iteration of the front-server type, kept with its plain
//! string helper.

use vstd::prelude::*;
use vstd::string::*;

use crate::error::OmegleLibError;
use crate::numerals::parse_u8;
use crate::strutil::starts_with;
use crate::types::chat_server::{chat_server_chars, chat_server_decode_spec, push_front_string};

verus! {

/// An omegle front server (front1, front2, ...): essentially a wrapper for
/// the `u8` after the 'front' prefix.
#[derive(Debug, Clone, Copy)]
pub struct Server {
    pub id_number: u8,
}

impl From<u8> for Server {
    /// Wraps a raw front-server number.
    fn from(value: u8) -> (r: Server) {
        Server { id_number: value }
    }
}

impl vstd::std_specs::convert::FromSpecImpl<u8> for Server {
    open spec fn obeys_from_spec() -> bool {
        true
    }

    open spec fn from_spec(v: u8) -> Server {
        Server { id_number: v }
    }
}

impl Server {
    /// The canonical "front{n}" string.
    pub fn to_server_string(&self) -> (r: String)
        ensures
            r@ == chat_server_chars(self.id_number as nat),
    {
        let mut out = String::new();
        push_front_string(&mut out, self.id_number);
        proof {
            assert(out@ =~= chat_server_chars(self.id_number as nat));
        }
        out
    }

    /// Reads the numeric identifier out of an ASCII "front{n}" string;
    /// every malformed string draws the same error.
    pub fn get_id_from_server_string(server_string: &str) -> (r: Result<u8, OmegleLibError>)
        ensures
            r is Ok <==> server_string.is_ascii() && chat_server_decode_spec(server_string@)
                is Some,
            r matches Ok(v) ==> chat_server_decode_spec(server_string@) == Some(v),
            r matches Err(e) ==> e is InvalidServerString,
    {
        proof {
            reveal_strlit("front");
        }
        if !starts_with(server_string, "front") || !server_string.is_ascii() {
            return Err(OmegleLibError::InvalidServerString);
        }
        let n = server_string.unicode_len();
        let num = server_string.substring_char(5, n);
        proof {
            assert(num@ =~= server_string@.skip(5));
        }
        match parse_u8(num) {
            Some(v) => Ok(v),
            None => Err(OmegleLibError::InvalidServerString),
        }
    }
}

} // verus!
