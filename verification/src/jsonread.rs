//! Trusted readers over JSON response bodies.
//!
//! The upstream service answers with JSON whose exact shape varies, so the
//! decoders inspect one top-level field at a time.  Parsing is done by
//! `serde_json`; each reader below is a trusted item whose result is pinned to
//! an uninterpreted name, a function of the body text alone.  All decoding
//! decisions (which field wins, what a missing field means) stay in verified
//! code built on these readers.

use vstd::prelude::*;

verus! {

/// Whether the text is well-formed JSON.
pub uninterp spec fn json_wf(s: Seq<char>) -> bool;

/// Whether the JSON document `s` has a top-level field `key`.
/// False when `s` does not parse or is not an object.
pub uninterp spec fn json_has_field(s: Seq<char>, key: Seq<char>) -> bool;

/// The text of the top-level string field `key` of the JSON document `s`;
/// `None` when `s` does not parse, has no such field, or the field is not a
/// string.
pub uninterp spec fn json_str_field(s: Seq<char>, key: Seq<char>) -> Option<Seq<char>>;

/// The value of the top-level field `key` of `s` when it is an unsigned
/// integer that fits in 64 bits; `None` otherwise.
pub uninterp spec fn json_u64_field(s: Seq<char>, key: Seq<char>) -> Option<u64>;

/// The value of the top-level field `key` of `s` when it is a signed integer
/// that fits in 64 bits; `None` otherwise.
pub uninterp spec fn json_i64_field(s: Seq<char>, key: Seq<char>) -> Option<i64>;

/// The value of the top-level boolean field `key` of `s`; `None` otherwise.
pub uninterp spec fn json_bool_field(s: Seq<char>, key: Seq<char>) -> Option<bool>;

/// The elements of the top-level field `key` of `s` when it is an array of
/// strings; `None` when `s` does not parse, the field is missing, it is not
/// an array, or some element is not a string.
pub uninterp spec fn json_str_array_field(s: Seq<char>, key: Seq<char>) -> Option<Seq<Seq<char>>>;

/// The canonical re-rendering of the top-level object field `key` of `s`;
/// `None` when `s` does not parse, the field is missing, or it is not an
/// object.
pub uninterp spec fn json_obj_field(s: Seq<char>, key: Seq<char>) -> Option<Seq<char>>;

/// Relies on `serde_json::from_str::<Value>`: says whether the text parses as
/// JSON.
#[verifier::external_body]
pub(crate) fn parse_ok(s: &str) -> (r: bool)
    ensures
        r == json_wf(s@),
{
    serde_json::from_str::<serde_json::Value>(s).is_ok()
}

/// Relies on `serde_json::from_str` and `Value::get`: says whether the parsed
/// document has the top-level field `key`.
#[verifier::external_body]
pub(crate) fn has_field(s: &str, key: &str) -> (r: bool)
    ensures
        r == json_has_field(s@, key@),
{
    match serde_json::from_str::<serde_json::Value>(s) {
        Ok(v) => v.get(key).is_some(),
        Err(_) => false,
    }
}

/// Relies on `serde_json::from_str` and `Value::get`: hands out the top-level
/// field `key` when it is a string.
#[verifier::external_body]
pub(crate) fn str_field(s: &str, key: &str) -> (r: Option<String>)
    ensures
        r.deep_view() == json_str_field(s@, key@),
{
    match serde_json::from_str::<serde_json::Value>(s) {
        Ok(v) => match v.get(key) {
            Some(serde_json::Value::String(x)) => Some(x.clone()),
            _ => None,
        },
        Err(_) => None,
    }
}

/// Relies on `serde_json::from_str`, `Value::get` and `Value::as_u64`: hands
/// out the top-level field `key` when it is an unsigned 64-bit integer.
#[verifier::external_body]
pub(crate) fn u64_field(s: &str, key: &str) -> (r: Option<u64>)
    ensures
        r == json_u64_field(s@, key@),
{
    match serde_json::from_str::<serde_json::Value>(s) {
        Ok(v) => match v.get(key) {
            Some(x) => x.as_u64(),
            None => None,
        },
        Err(_) => None,
    }
}

/// Relies on `serde_json::from_str`, `Value::get` and `Value::as_i64`: hands
/// out the top-level field `key` when it is a signed 64-bit integer.
#[verifier::external_body]
pub(crate) fn i64_field(s: &str, key: &str) -> (r: Option<i64>)
    ensures
        r == json_i64_field(s@, key@),
{
    match serde_json::from_str::<serde_json::Value>(s) {
        Ok(v) => match v.get(key) {
            Some(x) => x.as_i64(),
            None => None,
        },
        Err(_) => None,
    }
}

/// Relies on `serde_json::from_str`, `Value::get` and `Value::as_bool`: hands
/// out the top-level field `key` when it is a boolean.
#[verifier::external_body]
pub(crate) fn bool_field(s: &str, key: &str) -> (r: Option<bool>)
    ensures
        r == json_bool_field(s@, key@),
{
    match serde_json::from_str::<serde_json::Value>(s) {
        Ok(v) => match v.get(key) {
            Some(x) => x.as_bool(),
            None => None,
        },
        Err(_) => None,
    }
}

/// Relies on `serde_json::from_str`, `Value::get`, `Value::as_array` and
/// `Value::as_str`: hands out the top-level field `key` when it is an array
/// whose elements are all strings.
#[verifier::external_body]
pub(crate) fn str_array_field(s: &str, key: &str) -> (r: Option<Vec<String>>)
    ensures
        r.deep_view() == json_str_array_field(s@, key@),
{
    let v: serde_json::Value = serde_json::from_str(s).ok()?;
    let arr = v.get(key)?.as_array()?;
    arr.iter().map(|x| x.as_str().map(|y| y.to_string())).collect()
}

/// Relies on `serde_json::from_str`, `Value::get` and `Value`'s `Display`
/// rendering: hands the top-level object field `key` back as JSON text.
#[verifier::external_body]
pub(crate) fn obj_field(s: &str, key: &str) -> (r: Option<String>)
    ensures
        r.deep_view() == json_obj_field(s@, key@),
{
    match serde_json::from_str::<serde_json::Value>(s) {
        Ok(v) => match v.get(key) {
            Some(o @ serde_json::Value::Object(_)) => Some(o.to_string()),
            _ => None,
        },
        Err(_) => None,
    }
}

} // verus!
