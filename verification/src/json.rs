//! JSON values of `serde_json`, as far as the bridge reads them.
//!
//! A `serde_json::Value` is carried through the library as it is. What the
//! bridge reads of one is named by the spec functions below, and the private
//! functions of this module are the only places that call into `serde_json`.
//! Their contracts are believed, not proved.

use serde_json::Value;
use vstd::prelude::*;

verus! {

/// `serde_json::Value`: any JSON value. The verifier sees nothing inside one.
#[verifier::external_type_specification]
#[verifier::external_body]
pub struct ExValue(serde_json::Value);

/// The members of `v` where `v` is a JSON object, `None` where it is anything else.
pub uninterp spec fn json_object(v: Value) -> Option<Map<Seq<char>, Value>>;

/// The boolean that `v` holds where `v` is a JSON boolean.
pub uninterp spec fn json_bool(v: Value) -> Option<bool>;

/// The text that `v` holds where `v` is a JSON string.
pub uninterp spec fn json_string(v: Value) -> Option<Seq<char>>;

/// The compact JSON text of `v`.
pub uninterp spec fn json_text(v: Value) -> Seq<char>;

/// The JSON string literal for `text`: the text between double quotes, with
/// the escapes that `serde_json` writes.
pub uninterp spec fn json_quoted(text: Seq<char>) -> Seq<char>;

/// The member of `v` under `key`: present where `v` is an object that has the key.
pub open spec fn json_member(v: Value, key: Seq<char>) -> Option<Value> {
    match json_object(v) {
        Some(members) => if members.contains_key(key) {
            Some(members[key])
        } else {
            None
        },
        None => None,
    }
}

/// `Value::get` with a string index: the member under `key` of an object,
/// `None` for a missing key and for every value that is not an object.
#[verifier::external_body]
pub(crate) fn member<'a>(v: &'a Value, key: &str) -> (found: Option<&'a Value>)
    ensures
        match found {
            Some(m) => json_member(*v, key@) == Some(*m),
            None => json_member(*v, key@) is None,
        },
{
    v.get(key)
}

/// `Value::as_bool`: the boolean of a JSON boolean, `None` for any other value.
#[verifier::external_body]
pub(crate) fn as_bool(v: &Value) -> (b: Option<bool>)
    ensures
        b == json_bool(*v),
{
    v.as_bool()
}

/// `Value::as_str`: the text of a JSON string, `None` for any other value.
#[verifier::external_body]
pub(crate) fn as_str<'a>(v: &'a Value) -> (s: Option<&'a str>)
    ensures
        match s {
            Some(text) => json_string(*v) == Some(text@),
            None => json_string(*v) is None,
        },
{
    v.as_str()
}

/// `Value`'s `Display`, through `to_string`: the compact JSON text of the value.
#[verifier::external_body]
pub(crate) fn to_text(v: &Value) -> (text: String)
    ensures
        text@ == json_text(*v),
{
    v.to_string()
}

/// `Value::from` a string slice, rendered by `to_string`: the text as a JSON
/// string literal.
#[verifier::external_body]
pub(crate) fn quote(text: &str) -> (literal: String)
    ensures
        literal@ == json_quoted(text@),
{
    Value::from(text).to_string()
}

/// `Value::clone`: a value equal to the one given.
#[verifier::external_body]
pub(crate) fn duplicate(v: &Value) -> (copy: Value)
    ensures
        copy == *v,
{
    v.clone()
}

/// `Value::Object` over `Map::new()`: the object without members, whose
/// compact text is `{}`.
#[verifier::external_body]
pub(crate) fn empty_object() -> (v: Value)
    ensures
        json_object(v) == Some(Map::<Seq<char>, Value>::empty()),
        json_text(v) == "{}"@,
{
    Value::Object(serde_json::Map::new())
}

} // verus!
