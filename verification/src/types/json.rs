//! The structured form of a parsed JSON document, as this library reads it.
//! JSON tokenization itself is an external concern: a caller parses the
//! response body with a generic parser and hands the resulting tree over in
//! this shape. Numbers that are not unsigned integers are kept only as a
//! marker, since every field this protocol reads is an unsigned integer.

use vstd::prelude::*;

verus! {

/// One node of a parsed JSON document.
#[derive(Debug)]
pub enum JsonValue {
    /// JSON `null`.
    Null,
    /// A JSON boolean.
    Bool(bool),
    /// A JSON number that is an unsigned integer.
    UInt(u64),
    /// Any other JSON number (negative or fractional); never read by the
    /// protocol, only carried through ignored fields.
    NonUInt,
    /// A JSON string.
    Str(String),
    /// A JSON array.
    Arr(Vec<JsonValue>),
    /// A JSON object, in document order.
    Obj(Vec<(String, JsonValue)>),
}

/// The value of the first entry named `key`, if any.
pub open spec fn spec_lookup(entries: Seq<(String, JsonValue)>, key: Seq<char>) -> Option<
    JsonValue,
>
    decreases entries.len(),
{
    if entries.len() == 0 {
        None
    } else if entries[0].0@ == key {
        Some(entries[0].1)
    } else {
        spec_lookup(entries.skip(1), key)
    }
}

/// Looks a key up in a decoded JSON object, taking the first entry with
/// that name.
pub fn obj_get<'a>(entries: &'a Vec<(String, JsonValue)>, key: &str) -> (r: Option<&'a JsonValue>)
    ensures
        r is Some <==> spec_lookup(entries@, key@) is Some,
        r matches Some(v) ==> spec_lookup(entries@, key@) == Some(*v),
{
    let n = entries.len();
    let mut i: usize = 0;
    proof {
        assert(entries@.skip(0) =~= entries@);
    }
    while i < n
        invariant
            0 <= i <= n,
            n == entries@.len(),
            spec_lookup(entries@, key@) == spec_lookup(entries@.skip(i as int), key@),
        decreases n - i,
    {
        let pair = &entries[i];
        if crate::strutil::str_eq(pair.0.as_str(), key) {
            proof {
                assert(entries@.skip(i as int)[0] == entries@[i as int]);
            }
            return Some(&entries[i].1);
        }
        proof {
            assert(entries@.skip(i as int).skip(1) =~= entries@.skip(i + 1));
        }
        i = i + 1;
    }
    proof {
        assert(entries@.skip(n as int).len() == 0);
    }
    None
}

} // verus!
