//! JSON values as the server sends them, read through `serde_json`.
//!
//! The library never looks inside a JSON value itself: it parses text, asks
//! for a member by key, and reads a member as text or as an integer. Each of
//! those operations is `serde_json`'s own, named here so that contracts can
//! speak of its result.
use serde_json::Value;
use vstd::prelude::*;

verus! {

#[verifier::external_type_specification]
#[verifier::external_body]
pub struct ExJsonValue(serde_json::Value);

/// The value `serde_json::from_str::<Value>` reads from `text`, or `None`
/// where it reports an error.
pub uninterp spec fn json_of_text(text: Seq<char>) -> Option<Value>;

/// What `Value::get` with a string key gives: the member `key` of an object,
/// `None` for a missing key or a value that is not an object.
pub uninterp spec fn json_member(v: Value, key: Seq<char>) -> Option<Value>;

/// What `Value::as_str` gives: the text of a JSON string, `None` otherwise.
pub uninterp spec fn json_as_text(v: Value) -> Option<Seq<char>>;

/// What `Value::as_i64` gives: the integer of a JSON number that fits in an
/// `i64`, `None` otherwise.
pub uninterp spec fn json_as_i64(v: Value) -> Option<i64>;

/// Parses `text` as a JSON value (`serde_json::from_str::<Value>`).
///
/// Trusted: the result is the named parse of the text, with the error
/// dropped.
#[verifier::external_body]
pub(crate) fn parse_json(text: &str) -> (r: Option<Value>)
    ensures
        r == json_of_text(text@),
{
    serde_json::from_str::<Value>(text).ok()
}

/// The JSON `null` (`Value::default()`).
///
/// Trusted: `null` is no object and no string, so `Value::get` with a string
/// key and `Value::as_str` both give `None` on it (as their source shows).
#[verifier::external_body]
pub(crate) fn json_null() -> (r: Value)
    ensures
        forall|k: Seq<char>| #[trigger] json_member(r, k) is None,
        json_as_text(r) is None,
{
    Value::default()
}

/// A copy of a JSON value (`Value::clone`).
///
/// Trusted: the derived `clone` copies the value field by field, so the copy
/// is the same JSON value.
#[verifier::external_body]
pub(crate) fn json_clone(v: &Value) -> (r: Value)
    ensures
        r == *v,
{
    v.clone()
}

/// The member `key` of `v` (`Value::get` with a string key), copied out.
///
/// Trusted: the result is the named member lookup.
#[verifier::external_body]
pub(crate) fn json_get(v: &Value, key: &str) -> (r: Option<Value>)
    ensures
        r == json_member(*v, key@),
{
    v.get(key).cloned()
}

/// The text of a JSON string (`Value::as_str`).
///
/// Trusted: the result is the named reading of the value as text.
#[verifier::external_body]
pub(crate) fn json_text(v: &Value) -> (r: Option<String>)
    ensures
        match r {
            Some(s) => json_as_text(*v) == Some(s@),
            None => json_as_text(*v) is None,
        },
{
    v.as_str().map(|s| s.to_string())
}

/// The integer of a JSON number (`Value::as_i64`).
///
/// Trusted: the result is the named reading of the value as an integer.
#[verifier::external_body]
pub(crate) fn json_i64(v: &Value) -> (r: Option<i64>)
    ensures
        r == json_as_i64(*v),
{
    v.as_i64()
}

/// A copy of an optional JSON value.
pub fn copy_json_opt(o: &Option<Value>) -> (r: Option<Value>)
    ensures
        r == *o,
{
    match o {
        Some(v) => Some(json_clone(v)),
        None => None,
    }
}

/// The text of member `key`, where `v` has that member and it is a string.
pub open spec fn member_text(v: Value, key: Seq<char>) -> Option<Seq<char>> {
    match json_member(v, key) {
        Some(m) => json_as_text(m),
        None => None,
    }
}

/// The text of member `key` of `v`, where it is present and a string.
pub fn get_text(v: &Value, key: &str) -> (r: Option<String>)
    ensures
        match r {
            Some(s) => member_text(*v, key@) == Some(s@),
            None => member_text(*v, key@) is None,
        },
{
    match json_get(v, key) {
        Some(m) => json_text(&m),
        None => None,
    }
}

} // verus!
