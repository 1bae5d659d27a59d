//! The random session identifier: eight characters drawn from a 32-symbol
//! alphabet (uppercase letters and digits, excluding the visually ambiguous
//! 'I', 'O', '1' and '0'), generated once per session attempt and sent to
//! the service as a correlation token.

use vstd::prelude::*;
use vstd::string::*;

use rand::RngCore;

use crate::types::error::OmegleLibError;

verus! {

/// `c` is one of the 32 alphabet symbols.
pub open spec fn in_alphabet(c: char) -> bool {
    ('A' <= c && c <= 'Z' && c != 'I' && c != 'O') || ('2' <= c && c <= '9')
}

/// A valid identifier string: exactly eight characters, all in the alphabet.
pub open spec fn rand_id_valid(s: Seq<char>) -> bool {
    s.len() == 8 && forall|i: int| 0 <= i < s.len() ==> in_alphabet(#[trigger] s[i])
}

/// What decoding an identifier string yields: the very same characters,
/// provided the string is valid.
pub open spec fn rand_id_decode(s: Seq<char>) -> Option<Seq<char>> {
    if rand_id_valid(s) {
        Some(s)
    } else {
        None
    }
}

/// The alphabet in sampling order: the uppercase letters without 'I' and
/// 'O', then the digits '2' through '9'.
pub open spec fn alphabet_char(i: nat) -> char
    recommends
        i < 32,
{
    if i == 0 { 'A' } else if i == 1 { 'B' } else if i == 2 { 'C' } else if i == 3 { 'D' }
    else if i == 4 { 'E' } else if i == 5 { 'F' } else if i == 6 { 'G' } else if i == 7 { 'H' }
    else if i == 8 { 'J' } else if i == 9 { 'K' } else if i == 10 { 'L' } else if i == 11 { 'M' }
    else if i == 12 { 'N' } else if i == 13 { 'P' } else if i == 14 { 'Q' } else if i == 15 { 'R' }
    else if i == 16 { 'S' } else if i == 17 { 'T' } else if i == 18 { 'U' } else if i == 19 { 'V' }
    else if i == 20 { 'W' } else if i == 21 { 'X' } else if i == 22 { 'Y' } else if i == 23 { 'Z' }
    else if i == 24 { '2' } else if i == 25 { '3' } else if i == 26 { '4' } else if i == 27 { '5' }
    else if i == 28 { '6' } else if i == 29 { '7' } else if i == 30 { '8' } else { '9' }
}

/// Relies on `rand::thread_rng` and `RngCore::next_u32` for one uniform
/// 32-bit sample. Nothing is promised of the value: callers must hold for
/// every outcome.
#[verifier::external_body]
pub(crate) fn random_u32() -> u32 {
    rand::thread_rng().next_u32()
}

/// The alphabet symbol at a sampled index.
pub(crate) fn alphabet_char_at(i: u32) -> (r: char)
    requires
        i < 32,
    ensures
        r == alphabet_char(i as nat),
        in_alphabet(r),
{
    if i == 0 { 'A' } else if i == 1 { 'B' } else if i == 2 { 'C' } else if i == 3 { 'D' }
    else if i == 4 { 'E' } else if i == 5 { 'F' } else if i == 6 { 'G' } else if i == 7 { 'H' }
    else if i == 8 { 'J' } else if i == 9 { 'K' } else if i == 10 { 'L' } else if i == 11 { 'M' }
    else if i == 12 { 'N' } else if i == 13 { 'P' } else if i == 14 { 'Q' } else if i == 15 { 'R' }
    else if i == 16 { 'S' } else if i == 17 { 'T' } else if i == 18 { 'U' } else if i == 19 { 'V' }
    else if i == 20 { 'W' } else if i == 21 { 'X' } else if i == 22 { 'Y' } else if i == 23 { 'Z' }
    else if i == 24 { '2' } else if i == 25 { '3' } else if i == 26 { '4' } else if i == 27 { '5' }
    else if i == 28 { '6' } else if i == 29 { '7' } else if i == 30 { '8' } else { '9' }
}

/// One alphabet symbol drawn by rejection sampling: five uniform bits cover
/// the indices 0 through 31, which match the 32-symbol alphabet exactly, so
/// the sample is always accepted and no bias is introduced.
pub(crate) fn sample_alphabet_char() -> (r: char)
    ensures
        in_alphabet(r),
{
    let x = random_u32();
    let var: u32 = x >> 27;
    proof {
        assert(x >> 27u32 < 32) by (bit_vector);
    }
    alphabet_char_at(var)
}

/// Whether every character of `s` is in the alphabet and `s` is exactly
/// eight characters long.
pub(crate) fn check_rand_id(s: &str) -> (r: bool)
    ensures
        r <==> rand_id_valid(s@),
{
    let n = s.unicode_len();
    if n != 8 {
        return false;
    }
    let mut i: usize = 0;
    while i < n
        invariant
            0 <= i <= n,
            n == s@.len(),
            forall|j: int| 0 <= j < i ==> in_alphabet(#[trigger] s@[j]),
        decreases n - i,
    {
        let c = s.get_char(i);
        let cv = c as u32;
        let ok = (65 <= cv && cv <= 90 && cv != 73 && cv != 79) || (50 <= cv && cv <= 57);
        if !ok {
            proof {
                assert(!in_alphabet(s@[i as int]));
            }
            return false;
        }
        i = i + 1;
    }
    true
}

/// The service's random session identifier. Immutable once built; either
/// generated freshly or decoded from a caller-supplied string that follows
/// the convention.
#[derive(Clone, Debug)]
pub struct RandID {
    pub id: Vec<char>,
}

impl RandID {
    /// A well-formed identifier holds eight alphabet characters.
    pub open spec fn wf(&self) -> bool {
        rand_id_valid(self.id@)
    }

    /// Tries to build an identifier from a caller-supplied string.
    /// Succeeds exactly on valid strings and keeps the characters as given.
    pub fn try_from(value: &str) -> (r: Result<RandID, OmegleLibError>)
        ensures
            r is Ok <==> rand_id_decode(value@) is Some,
            r matches Ok(id) ==> rand_id_decode(value@) == Some(id.id@) && id.wf(),
            r matches Err(e) ==> e is InvalidID,
    {
        if !check_rand_id(value) {
            return Err(OmegleLibError::InvalidID);
        }
        let n = value.unicode_len();
        let mut id: Vec<char> = Vec::new();
        let mut i: usize = 0;
        while i < n
            invariant
                0 <= i <= n,
                n == value@.len(),
                id@.len() == i,
                forall|j: int| 0 <= j < i ==> id@[j] == value@[j],
            decreases n - i,
        {
            id.push(value.get_char(i));
            i = i + 1;
        }
        proof {
            assert(id@ =~= value@);
        }
        Ok(RandID { id })
    }

    /// Creates a fresh identifier by sampling eight alphabet symbols.
    pub fn new() -> (r: RandID)
        ensures
            r.wf(),
    {
        let mut id: Vec<char> = Vec::new();
        let mut i: usize = 0;
        while i < 8
            invariant
                0 <= i <= 8,
                id@.len() == i,
                forall|j: int| 0 <= j < i ==> in_alphabet(#[trigger] id@[j]),
            decreases 8 - i,
        {
            id.push(sample_alphabet_char());
            i = i + 1;
        }
        RandID { id }
    }

    /// Encodes back to the eight-character string, exactly as held.
    pub fn encode(&self) -> (r: String)
        ensures
            r@ == self.id@,
    {
        let mut out = String::new();
        let mut i: usize = 0;
        while i < self.id.len()
            invariant
                0 <= i <= self.id@.len(),
                out@ == self.id@.take(i as int),
            decreases self.id@.len() - i,
        {
            out.push(self.id[i]);
            proof {
                assert(self.id@.take(i as int).push(self.id@[i as int]) =~= self.id@.take(i + 1));
            }
            i = i + 1;
        }
        proof {
            assert(self.id@.take(self.id@.len() as int) =~= self.id@);
        }
        out
    }
}

/// Every valid eight-character alphabet string decodes successfully, and
/// re-encoding the decoded identifier reproduces the input exactly.
pub proof fn lemma_rand_id_round_trip(s: Seq<char>)
    requires
        rand_id_valid(s),
    ensures
        rand_id_decode(s) == Some(s),
{
}

/// Every string of the wrong length, or containing one of the forbidden
/// characters 'I', 'O', '1', '0', fails to decode.
pub proof fn lemma_rand_id_rejects(s: Seq<char>)
    requires
        s.len() != 8 || exists|i: int|
            0 <= i < s.len() && (s[i] == 'I' || s[i] == 'O' || s[i] == '1' || s[i] == '0'),
    ensures
        rand_id_decode(s) is None,
{
    if s.len() == 8 {
        let i = choose|i: int|
            0 <= i < s.len() && (s[i] == 'I' || s[i] == 'O' || s[i] == '1' || s[i] == '0');
        assert(!in_alphabet(s[i]));
    }
}

} // verus!
