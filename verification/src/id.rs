//! The first iteration of the random session identifier, kept with a plain
//! string representation.

use vstd::prelude::*;
use vstd::string::*;

use crate::error::OmegleLibError;
use crate::types::rand_id::{check_rand_id, rand_id_decode, rand_id_valid, sample_alphabet_char};

verus! {

/// The eight-character random session identifier, held as a string.
#[derive(Debug)]
pub struct RandID {
    pub id: String,
}

impl RandID {
    /// A well-formed identifier holds eight alphabet characters.
    pub open spec fn wf(&self) -> bool {
        rand_id_valid(self.id@)
    }

    /// Tries to build an identifier from a caller-supplied string.
    /// Succeeds exactly on valid strings and keeps the characters as given.
    pub fn try_from(value: &str) -> (r: Result<RandID, OmegleLibError>)
        ensures
            r is Ok <==> rand_id_decode(value@) is Some,
            r matches Ok(id) ==> rand_id_decode(value@) == Some(id.id@) && id.wf(),
            r matches Err(e) ==> e is InvalidID,
    {
        if !check_rand_id(value) {
            return Err(OmegleLibError::InvalidID);
        }
        Ok(RandID { id: String::from_str(value) })
    }

    /// Creates a fresh identifier by sampling eight alphabet symbols.
    pub fn new() -> (r: RandID)
        ensures
            r.wf(),
    {
        let mut id = String::new();
        let mut i: usize = 0;
        while i < 8
            invariant
                0 <= i <= 8,
                id@.len() == i,
                forall|j: int|
                    0 <= j < i ==> crate::types::rand_id::in_alphabet(#[trigger] id@[j]),
            decreases 8 - i,
        {
            id.push(sample_alphabet_char());
            i = i + 1;
        }
        RandID { id }
    }

    /// Hands the identifier string over, exactly as held.
    pub fn into_string(self) -> (r: String)
        ensures
            r@ == self.id@,
    {
        self.id
    }
}

} // verus!
