//! JSON values, as `serde_json` holds them.
//!
//! A `Value` is opaque here: this module declares the type and reads members
//! out of it through `serde_json`'s own accessors, each of which gets a name.

use serde_json::Value;
use vstd::prelude::*;

verus! {

/// `serde_json::Value`, declared so that a value can be handed on. Nothing is
/// said of what is inside one.
#[verifier::external_type_specification]
#[verifier::external_body]
pub struct ExValue(Value);

/// The member `key` of `value`, where `value` is an object that has one: what
/// `Value::get` gives for a string index.
pub uninterp spec fn member(value: Value, key: Seq<char>) -> Option<Value>;

/// The string that `value` is, where it is one: what `Value::as_str` gives.
pub uninterp spec fn text_of(value: Value) -> Option<Seq<char>>;

/// The boolean that `value` is, where it is one: what `Value::as_bool` gives.
pub uninterp spec fn flag_of(value: Value) -> Option<bool>;

/// The number that `value` is, where it is one that a `u64` holds: what
/// `Value::as_u64` gives.
pub uninterp spec fn count_of(value: Value) -> Option<u64>;

/// `Value::get` with a string index, then a copy of the member. Believed, not
/// proved: the outcome is `member` of the value and the key.
#[verifier::external_body]
pub(crate) fn get_member(value: &Value, key: &str) -> (found: Option<Value>)
    ensures
        found == member(*value, key@),
{
    value.get(key).cloned()
}

/// `Value::as_str`, then a copy of the string. Believed, not proved: the
/// outcome is `text_of` the value.
#[verifier::external_body]
pub(crate) fn as_text(value: &Value) -> (text: Option<String>)
    ensures
        text.deep_view() == text_of(*value),
{
    value.as_str().map(|s| s.to_string())
}

/// `Value::as_bool`. Believed, not proved: the outcome is `flag_of` the value.
#[verifier::external_body]
pub(crate) fn as_flag(value: &Value) -> (flag: Option<bool>)
    ensures
        flag == flag_of(*value),
{
    value.as_bool()
}

/// `Value::as_u64`. Believed, not proved: the outcome is `count_of` the value.
#[verifier::external_body]
pub(crate) fn as_count(value: &Value) -> (count: Option<u64>)
    ensures
        count == count_of(*value),
{
    value.as_u64()
}

/// The string in the member `key` of `scope`.
pub open spec fn text_setting(scope: Value, key: Seq<char>) -> Option<Seq<char>> {
    match member(scope, key) {
        Some(value) => text_of(value),
        None => None,
    }
}

/// The boolean in the member `key` of `scope`.
pub open spec fn flag_setting(scope: Value, key: Seq<char>) -> Option<bool> {
    match member(scope, key) {
        Some(value) => flag_of(value),
        None => None,
    }
}

/// The number in the member `key` of `scope`.
pub open spec fn count_setting(scope: Value, key: Seq<char>) -> Option<u64> {
    match member(scope, key) {
        Some(value) => count_of(value),
        None => None,
    }
}

/// The string in the member `key` of `scope`.
pub fn read_text(scope: &Value, key: &str) -> (text: Option<String>)
    ensures
        text.deep_view() == text_setting(*scope, key@),
{
    match get_member(scope, key) {
        Some(value) => as_text(&value),
        None => None,
    }
}

/// The boolean in the member `key` of `scope`.
pub fn read_flag(scope: &Value, key: &str) -> (flag: Option<bool>)
    ensures
        flag == flag_setting(*scope, key@),
{
    match get_member(scope, key) {
        Some(value) => as_flag(&value),
        None => None,
    }
}

/// The number in the member `key` of `scope`.
pub fn read_count(scope: &Value, key: &str) -> (count: Option<u64>)
    ensures
        count == count_setting(*scope, key@),
{
    match get_member(scope, key) {
        Some(value) => as_count(&value),
        None => None,
    }
}

} // verus!
