//! JSON values, as `serde_json` holds them.
//!
//! Verus does not look inside a `serde_json::Value`. What this crate needs
//! to know of one is named here, and every function in this file is a call
//! into `serde_json` whose contract is taken on trust from its source.

use vstd::prelude::*;
use serde_json::Value;

verus! {

#[verifier::external_type_specification]
#[verifier::external_body]
pub struct ExValue(serde_json::Value);

#[verifier::external_type_specification]
#[verifier::external_body]
pub struct ExJsonError(serde_json::Error);

/// The value that `text` is the JSON of, if it is JSON at all.
pub uninterp spec fn parsed(text: Seq<char>) -> Option<Value>;

/// The JSON text of `doc`, indented.
pub uninterp spec fn rendered(doc: Value) -> Seq<char>;

/// The members of `value`, by key, if it is an object.
pub uninterp spec fn members_of(value: Value) -> Option<Map<Seq<char>, Value>>;

/// The characters of `value`, if it is a string.
pub uninterp spec fn text_of(value: Value) -> Option<Seq<char>>;

/// The elements of `value`, if it is an array.
pub uninterp spec fn items_of(value: Value) -> Option<Seq<Value>>;

/// Whether `value` is `null`.
pub uninterp spec fn is_null(value: Value) -> bool;

/// The member of `value` under `key`, if `value` is an object that has one.
pub open spec fn member_of(value: Value, key: Seq<char>) -> Option<Value> {
    match members_of(value) {
        Some(members) => if members.contains_key(key) {
            Some(members[key])
        } else {
            None
        },
        None => None,
    }
}

/// Calls `serde_json::from_str` for a `Value`. Trusted: the same text always
/// gives the same outcome, which `parsed` names.
#[verifier::external_body]
pub(crate) fn parse(text: &str) -> (outcome: Result<Value, serde_json::Error>)
    ensures
        match outcome {
            Ok(doc) => parsed(text@) == Some(doc),
            Err(_) => parsed(text@) is None,
        },
{
    serde_json::from_str::<Value>(text)
}

/// Calls `serde_json::to_string_pretty` on a `Value`. Trusted: it succeeds,
/// because the text is written into a byte vector, which takes every write,
/// and the keys of an object are strings, the two things that writing could
/// fail on; and the text depends on the value alone, which `rendered` names.
#[verifier::external_body]
pub(crate) fn render(doc: &Value) -> (outcome: Result<String, serde_json::Error>)
    ensures
        outcome is Ok,
        outcome matches Ok(text) ==> text@ == rendered(*doc),
{
    serde_json::to_string_pretty(doc)
}

/// Calls `Value::get` with a string key. Trusted: it yields the member
/// under that key of an object, and nothing for any other value or where
/// the key is missing.
#[verifier::external_body]
pub(crate) fn member<'a>(value: &'a Value, key: &str) -> (found: Option<&'a Value>)
    ensures
        match found {
            Some(inner) => member_of(*value, key@) == Some(*inner),
            None => member_of(*value, key@) is None,
        },
{
    value.get(key)
}

/// Calls `Value::as_str`. Trusted: it yields the characters of a string
/// value, and nothing for any other value.
#[verifier::external_body]
pub(crate) fn text<'a>(value: &'a Value) -> (found: Option<&'a str>)
    ensures
        match found {
            Some(inner) => text_of(*value) == Some(inner@),
            None => text_of(*value) is None,
        },
{
    value.as_str()
}

/// Calls `Value::as_array`. Trusted: it yields the elements of an array
/// value in their order, and nothing for any other value.
#[verifier::external_body]
pub(crate) fn items<'a>(value: &'a Value) -> (found: Option<&'a Vec<Value>>)
    ensures
        match found {
            Some(inner) => items_of(*value) == Some(inner@),
            None => items_of(*value) is None,
        },
{
    value.as_array()
}

/// Calls `Value::as_object` and `Map::len`. Trusted: for an object it
/// yields the number of its members, which is finite, and nothing for any
/// other value.
#[verifier::external_body]
pub(crate) fn member_count(value: &Value) -> (count: Option<usize>)
    ensures
        match count {
            Some(n) => members_of(*value) matches Some(members) && members.dom().finite()
                && members.dom().len() == n,
            None => members_of(*value) is None,
        },
{
    match value.as_object() {
        Some(members) => Some(members.len()),
        None => None,
    }
}

/// Calls `Value::is_null`.
#[verifier::external_body]
pub(crate) fn null(value: &Value) -> (yes: bool)
    ensures
        yes == is_null(*value),
{
    value.is_null()
}

/// Builds `Value::String`. Trusted: the value is a string of the same
/// characters.
#[verifier::external_body]
pub(crate) fn text_value(text: &str) -> (value: Value)
    ensures
        text_of(value) == Some(text@),
{
    Value::String(text.to_owned())
}

/// Builds `Value::Array`. Trusted: the value is an array of the same
/// elements in the same order.
#[verifier::external_body]
pub(crate) fn array_value(items: Vec<Value>) -> (value: Value)
    ensures
        items_of(value) == Some(items@),
{
    Value::Array(items)
}

/// Builds `Value::Object` from `Map::new`. Trusted: the value is an object
/// without members.
#[verifier::external_body]
pub(crate) fn empty_object() -> (value: Value)
    ensures
        members_of(value) == Some(Map::<Seq<char>, Value>::empty()),
{
    Value::Object(serde_json::Map::new())
}

/// Assigns through `Value`'s index operator with a string key. Trusted: an
/// object then holds `inner` under `key`, whether or not it held something
/// there before, and its other members as they were. The operator panics on
/// values that are neither an object nor `null`; only objects are let in.
#[verifier::external_body]
pub(crate) fn set_member(value: &mut Value, key: &str, inner: Value)
    requires
        members_of(*old(value)) is Some,
    ensures
        members_of(*final(value)) == Some(members_of(*old(value))->0.insert(key@, inner)),
{
    value[key] = inner;
}

/// Calls `Value::as_object_mut` and `Map::remove`. Trusted: the object
/// then holds nothing under `key`, and its other members as they were.
#[verifier::external_body]
pub(crate) fn drop_member(value: &mut Value, key: &str)
    requires
        members_of(*old(value)) is Some,
    ensures
        members_of(*final(value)) == Some(members_of(*old(value))->0.remove(key@)),
{
    if let Some(members) = value.as_object_mut() {
        members.remove(key);
    }
}

} // verus!
