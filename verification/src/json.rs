//! The JSON layer: `serde_json` reads and writes the text, and its `Value`
//! is the tree that the schema code walks and builds. Nothing in this file is
//! proved: each item says what `serde_json` is taken to do.

use vstd::prelude::*;
use serde_json::{Error, Value};
use crate::tree::{member, JsonTree, Numeral};

verus! {

/// `serde_json::Value`, a JSON document in memory. Nothing inside it is
/// visible here: the items below say what it holds.
#[verifier::external_type_specification]
#[verifier::external_body]
pub struct ExValue(Value);

/// `serde_json::Error`. It is carried to the caller as it comes.
#[verifier::external_type_specification]
#[verifier::external_body]
pub struct ExError(Error);

/// `serde_json::Map`, the members of a JSON object. With the features of
/// `serde_json` that this crate is built with it keeps its members sorted by
/// name.
#[verifier::external_type_specification]
#[verifier::external_body]
#[verifier::reject_recursive_types(K)]
#[verifier::reject_recursive_types(V)]
pub struct ExMap<K, V>(serde_json::Map<K, V>);

/// The members of a JSON object under construction.
pub type Members = serde_json::Map<String, Value>;

/// The tree that a `serde_json::Value` holds.
pub uninterp spec fn value_tree(v: Value) -> JsonTree;

/// The members that a `serde_json::Map` holds, by name.
pub uninterp spec fn map_members(m: Members) -> Map<Seq<char>, JsonTree>;

/// What `serde_json::from_str` makes of a text: the tree of the `Value` it
/// returns, or `None` where it returns an error.
pub uninterp spec fn document_tree(text: Seq<char>) -> Option<JsonTree>;

/// The text that `serde_json::to_string` writes for a `Value` that holds
/// the tree. The members of an object carry no order in a tree: this is a
/// function of the tree because `serde_json::Map` keeps its members sorted by
/// name, as it does unless `serde_json` is built with `preserve_order`.
pub uninterp spec fn tree_text(t: JsonTree) -> Seq<char>;

/// `serde_json::from_str::<Value>`. It returns the document that the text
/// spells, or an error, and the same for the same text.
#[verifier::external_body]
pub(crate) fn read_value(text: &str) -> (r: Result<Value, Error>)
    ensures
        match r {
            Ok(v) => document_tree(text@) == Some(value_tree(v)),
            Err(_) => document_tree(text@).is_none(),
        },
{
    serde_json::from_str::<Value>(text)
}

/// `serde_json::to_string` on a `Value`. It always returns a text, and the
/// text depends on the tree alone. It cannot fail here: a `Value` is written
/// as null, booleans, numbers, strings, arrays and objects with string names,
/// a number that is not finite is written as `null`, and the only errors on
/// that path are those of the writer, which is a `Vec<u8>`.
#[verifier::external_body]
pub(crate) fn write_value(v: &Value) -> (r: Result<String, Error>)
    ensures
        r is Ok,
        r matches Ok(s) ==> s@ == tree_text(value_tree(*v)),
{
    serde_json::to_string(v)
}

/// `Value::get` with a string index: the member of that name where the value
/// is an object that has one, else `None`.
#[verifier::external_body]
pub(crate) fn get_member<'a>(v: &'a Value, key: &str) -> (r: Option<&'a Value>)
    ensures
        match member(value_tree(*v), key@) {
            Some(t) => r matches Some(x) && value_tree(*x) == t,
            None => r.is_none(),
        },
{
    v.get(key)
}

/// `Value::is_null`.
pub assume_specification[ Value::is_null ](v: &Value) -> (r: bool)
    ensures
        r == (value_tree(*v) == JsonTree::Null),
;

/// `Value::is_object`.
pub assume_specification[ Value::is_object ](v: &Value) -> (r: bool)
    ensures
        r == (value_tree(*v) is Object),
;

/// `Value::as_str`: the string where the value is one.
pub assume_specification<'a>[ Value::as_str ](v: &'a Value) -> (r: Option<&'a str>)
    ensures
        match value_tree(*v) {
            JsonTree::Text(s) => r matches Some(x) && x@ == s,
            _ => r.is_none(),
        },
;

/// `Value::as_u64`: the number where the value is a non-negative integer
/// that fits in 64 bits.
pub assume_specification[ Value::as_u64 ](v: &Value) -> (r: Option<u64>)
    ensures
        match value_tree(*v) {
            JsonTree::Number(Numeral::Unsigned(n)) => r == Some(n),
            _ => r.is_none(),
        },
;

/// `Value::as_bool`: the boolean where the value is one.
pub assume_specification[ Value::as_bool ](v: &Value) -> (r: Option<bool>)
    ensures
        match value_tree(*v) {
            JsonTree::Bool(b) => r == Some(b),
            _ => r.is_none(),
        },
;

/// `Value::as_array`: the elements, in order, where the value is an array.
pub assume_specification<'a>[ Value::as_array ](v: &'a Value) -> (r: Option<&'a Vec<Value>>)
    ensures
        match value_tree(*v) {
            JsonTree::Array(items) => r matches Some(a) && a@.len() == items.len()
                && forall|i: int| 0 <= i < items.len() ==> value_tree(#[trigger] a@[i]) == items[i],
            _ => r.is_none(),
        },
;

/// `Value::String`: the value that is this string.
#[verifier::external_body]
pub(crate) fn text_value(text: String) -> (v: Value)
    ensures
        value_tree(v) == JsonTree::Text(text@),
{
    Value::String(text)
}

/// `Value::Number` of `Number::from` an unsigned integer.
#[verifier::external_body]
pub(crate) fn count_value(n: u64) -> (v: Value)
    ensures
        value_tree(v) == JsonTree::Number(Numeral::Unsigned(n)),
{
    Value::Number(serde_json::Number::from(n))
}

/// `Value::Bool`: the value that is this boolean.
#[verifier::external_body]
pub(crate) fn flag_value(b: bool) -> (v: Value)
    ensures
        value_tree(v) == JsonTree::Bool(b),
{
    Value::Bool(b)
}

/// `Value::Array`: the array of these elements, in their order.
#[verifier::external_body]
pub(crate) fn array_value(items: Vec<Value>) -> (v: Value)
    ensures
        value_tree(v) == JsonTree::Array(items@.map_values(|x: Value| value_tree(x))),
{
    Value::Array(items)
}

/// `Value::Object`: the object of these members.
#[verifier::external_body]
pub(crate) fn object_value(members: Members) -> (v: Value)
    ensures
        value_tree(v) == JsonTree::Object(map_members(members)),
{
    Value::Object(members)
}

/// `Map::new`: a map without members.
#[verifier::external_body]
pub(crate) fn new_members() -> (m: Members)
    ensures
        (map_members(m) == Map::<Seq<char>, JsonTree>::empty()),
{
    serde_json::Map::new()
}

/// `Map::insert`: the member is added, in place of one of the same name
/// where there was one.
#[verifier::external_body]
pub(crate) fn insert_member(members: &mut Members, key: String, value: Value)
    ensures
        map_members(*final(members)) == map_members(*old(members)).insert(key@, value_tree(value)),
{
    members.insert(key, value);
}

} // verus!
