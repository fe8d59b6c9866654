//! The JSON tree shape exchanged with the transport layer.
//!
//! The transport parses request text into this tree and serializes reply
//! trees back to text; the core's schema logic works on the tree alone.
//! Numbers outside the unsigned 64-bit range, floating-point numbers and
//! any other value the schema can never accept arrive as `Other`.

use vstd::prelude::*;

verus! {

/// A JSON value, as far as the wire schema needs one.
#[derive(PartialEq, Eq, Debug)]
pub enum JsonValue {
    Null,
    Bool(bool),
    UInt(u64),
    Str(String),
    Array(Vec<JsonValue>),
    Object(Vec<(String, JsonValue)>),
    /// A value of a shape the schema never accepts (for instance a
    /// fractional or negative number).
    Other,
}

/// The first member of an object with the given key, if any: JSON object
/// members are ordered, and the first occurrence of a key wins.
pub open spec fn spec_find_key(fields: Seq<(String, JsonValue)>, k: Seq<char>) -> Option<
    JsonValue,
>
    decreases fields.len(),
{
    if fields.len() == 0 {
        None
    } else if fields[0].0@ == k {
        Some(fields[0].1)
    } else {
        spec_find_key(fields.drop_first(), k)
    }
}

/// Compares a string against a literal key or tag.
pub fn str_is(s: &String, lit: &str) -> (r: bool)
    ensures
        r == (s@ == lit@),
{
    let other = String::from_str(lit);
    s.eq(&other)
}

} // verus!
