//! The mathematical shape of a JSON value.

use vstd::prelude::*;

verus! {

/// A JSON number. Unsigned integers up to 64 bits are the only numbers the
/// feed schema reads; the other two variants keep the remaining numbers apart.
pub enum Numeral {
    /// A non-negative integer that fits in 64 bits.
    Unsigned(u64),
    /// A negative integer.
    Negative(i64),
    /// Any other number, by its IEEE 754 binary64 bit pattern.
    Binary64 { bits: u64 },
}

/// A JSON value as a tree. An object is a map from member names to values:
/// a name occurs at most once and the members carry no order.
pub enum JsonTree {
    Null,
    Bool(bool),
    Number(Numeral),
    Text(Seq<char>),
    Array(Seq<JsonTree>),
    Object(Map<Seq<char>, JsonTree>),
}

/// The member `key` of the object `t`; `None` where `t` is no object or has
/// no such member.
pub open spec fn member(t: JsonTree, key: Seq<char>) -> Option<JsonTree> {
    match t {
        JsonTree::Object(m) => if m.contains_key(key) {
            Some(m[key])
        } else {
            None
        },
        _ => None,
    }
}

/// The member `key` of `t` where it is there and not `null`.
pub open spec fn present(t: JsonTree, key: Seq<char>) -> Option<JsonTree> {
    match member(t, key) {
        Some(JsonTree::Null) => None,
        other => other,
    }
}

} // verus!
