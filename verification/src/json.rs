//! Reading JSON values of `serde_json`.
//!
//! A `serde_json::Value` is opaque to the verifier. What the accessors used
//! here return is given a name each, and the contracts of the accessors are
//! trusted to match `serde_json`'s behaviour.

use serde_json::Value;
use vstd::prelude::*;

verus! {

/// `serde_json::Value`, declared so that it can stand in signatures. Nothing
/// inside a value is visible to the verifier.
#[verifier::external_type_specification]
#[verifier::external_body]
pub struct ExValue(Value);

/// The entry that `value` holds under `key`: `Some` exactly when `value` is a
/// JSON object that has an entry under that key.
pub uninterp spec fn json_member(value: Value, key: Seq<char>) -> Option<Value>;

/// The elements of `value`, in order: `Some` exactly when `value` is a JSON
/// array.
pub uninterp spec fn json_items(value: Value) -> Option<Seq<Value>>;

/// The characters of `value`: `Some` exactly when `value` is a JSON string.
pub uninterp spec fn json_text(value: Value) -> Option<Seq<char>>;

/// Calls `serde_json::Value::get` with a string key. Trusted: the result is
/// the entry named by `json_member`, and there is one exactly when
/// `json_member` says so. The call does not panic on any value or key.
#[verifier::external_body]
pub(crate) fn member<'a>(value: &'a Value, key: &str) -> (r: Option<&'a Value>)
    ensures
        (match r {
            Some(entry) => Some(*entry),
            None => None,
        }) == json_member(*value, key@),
{
    value.get(key)
}

/// Calls `serde_json::Value::as_array`. Trusted: the result is the vector of
/// elements named by `json_items`, and `None` for anything but an array.
#[verifier::external_body]
pub(crate) fn items<'a>(value: &'a Value) -> (r: Option<&'a Vec<Value>>)
    ensures
        (match r {
            Some(list) => Some(list@),
            None => None,
        }) == json_items(*value),
{
    value.as_array()
}

/// Calls `serde_json::Value::as_str`. Trusted: the result is the string named
/// by `json_text`, and `None` for anything but a string.
#[verifier::external_body]
pub(crate) fn text<'a>(value: &'a Value) -> (r: Option<&'a str>)
    ensures
        (match r {
            Some(s) => Some(s@),
            None => None,
        }) == json_text(*value),
{
    value.as_str()
}

} // verus!
