//! JSON values as `serde_json` holds them.
//!
//! A [`serde_json::Value`] is carried through whole. What the crate reads of
//! one is named here: the members of an object, the items of an array, and the
//! scalar a value is.

use serde_json::Value;
use vstd::prelude::*;

verus! {

/// `serde_json::Value`: a JSON value. What it is can be told by the names below
/// alone.
#[verifier::external_type_specification]
#[verifier::external_body]
pub struct ExValue(Value);

/// The members of a JSON object; `None` for a value of any other kind.
pub uninterp spec fn json_object(value: Value) -> Option<Map<Seq<char>, Value>>;

/// The items of a JSON array; `None` for a value of any other kind.
pub uninterp spec fn json_array(value: Value) -> Option<Seq<Value>>;

/// The text of a JSON string; `None` for a value of any other kind.
pub uninterp spec fn json_string(value: Value) -> Option<Seq<char>>;

/// A JSON boolean; `None` for a value of any other kind.
pub uninterp spec fn json_bool(value: Value) -> Option<bool>;

/// A JSON number that is an integer of 64 signed bits; `None` for any other value.
pub uninterp spec fn json_integer(value: Value) -> Option<i64>;

/// The compact text of a value.
pub uninterp spec fn json_compact(value: Value) -> Seq<char>;

/// The indented text of a value, where it can be written.
pub uninterp spec fn json_pretty(value: Value) -> Option<Seq<char>>;

/// The diagnostic text of a list of values.
pub uninterp spec fn json_debug(values: Seq<Value>) -> Seq<char>;

/// The JSON string with this text.
pub uninterp spec fn json_of_string(text: Seq<char>) -> Value;

/// The JSON array with this one item.
pub uninterp spec fn json_of_item(item: Value) -> Value;

/// The JSON object with this one member.
pub uninterp spec fn json_of_member(key: Seq<char>, member: Value) -> Value;

/// The object with the member `key` set to `member`.
pub uninterp spec fn json_with_member(object: Value, key: Seq<char>, member: Value) -> Value;

/// The member `key` of an object; `None` where there is none, or no object.
pub open spec fn member_of(value: Value, key: Seq<char>) -> Option<Value> {
    match json_object(value) {
        Some(members) => if members.contains_key(key) {
            Some(members[key])
        } else {
            None
        },
        None => None,
    }
}

/// The string at the end of a path of one member.
pub open spec fn string_at(value: Value, key: Seq<char>) -> Option<Seq<char>> {
    match member_of(value, key) {
        Some(member) => json_string(member),
        None => None,
    }
}

/// The string at the end of a path of two members.
pub open spec fn string_under(value: Value, outer: Seq<char>, inner: Seq<char>) -> Option<Seq<char>> {
    match member_of(value, outer) {
        Some(member) => string_at(member, inner),
        None => None,
    }
}

/// The boolean at the end of a path of one member.
pub open spec fn bool_at(value: Value, key: Seq<char>) -> Option<bool> {
    match member_of(value, key) {
        Some(member) => json_bool(member),
        None => None,
    }
}

/// The integer at the end of a path of one member.
pub open spec fn integer_at(value: Value, key: Seq<char>) -> Option<i64> {
    match member_of(value, key) {
        Some(member) => json_integer(member),
        None => None,
    }
}

/// The integer at the end of a path of two members.
pub open spec fn integer_under(value: Value, outer: Seq<char>, inner: Seq<char>) -> Option<i64> {
    match member_of(value, outer) {
        Some(member) => integer_at(member, inner),
        None => None,
    }
}

/// The text of an optional string.
pub open spec fn text_of(text: Option<String>) -> Option<Seq<char>> {
    match text {
        Some(text) => Some(text@),
        None => None,
    }
}

/// `Value::get` with a string index: the member of that name when the value
/// is an object that has it, `None` otherwise.
#[verifier::external_body]
pub(crate) fn get<'a>(value: &'a Value, key: &str) -> (out: Option<&'a Value>)
    ensures
        match out {
            Some(member) => member_of(*value, key@) == Some(*member),
            None => member_of(*value, key@) is None,
        },
{
    value.get(key)
}

/// `Value::as_str`: the text of a JSON string, `None` for any other kind.
#[verifier::external_body]
fn as_str(value: &Value) -> (out: Option<&str>)
    ensures
        match out {
            Some(text) => json_string(*value) == Some(text@),
            None => json_string(*value) is None,
        },
{
    value.as_str()
}

/// `Value::as_bool`: a JSON boolean, `None` for any other kind.
#[verifier::external_body]
fn as_bool(value: &Value) -> (out: Option<bool>)
    ensures
        out == json_bool(*value),
{
    value.as_bool()
}

/// `Value::as_i64`: a JSON number that is an integer within 64 signed bits,
/// `None` for any other value.
#[verifier::external_body]
fn as_i64(value: &Value) -> (out: Option<i64>)
    ensures
        out == json_integer(*value),
{
    value.as_i64()
}

/// `Value::as_array`: the items of a JSON array, `None` for any other kind.
#[verifier::external_body]
pub(crate) fn as_array(value: &Value) -> (out: Option<&Vec<Value>>)
    ensures
        match out {
            Some(items) => json_array(*value) == Some(items@),
            None => json_array(*value) is None,
        },
{
    value.as_array()
}

/// `Value::is_object`: whether the value is a JSON object.
#[verifier::external_body]
pub(crate) fn is_object(value: &Value) -> (out: bool)
    ensures
        out == (json_object(*value) is Some),
{
    value.is_object()
}

/// `Value::clone`: the same value again.
#[verifier::external_body]
pub(crate) fn copy(value: &Value) -> (out: Value)
    ensures
        out == *value,
{
    value.clone()
}

/// `Value::to_string`: the compact text of the value.
#[verifier::external_body]
pub(crate) fn compact(value: &Value) -> (out: String)
    ensures
        out@ == json_compact(*value),
{
    value.to_string()
}

/// `serde_json::to_string_pretty`: the indented text of the value, or `None`
/// where writing it fails.
#[verifier::external_body]
pub(crate) fn pretty(value: &Value) -> (out: Option<String>)
    ensures
        text_of(out) == json_pretty(*value),
{
    serde_json::to_string_pretty(value).ok()
}

/// The `Debug` text of a list of values.
#[verifier::external_body]
pub(crate) fn debug(values: &Vec<Value>) -> (out: String)
    ensures
        out@ == json_debug(values@),
{
    format!("{values:?}")
}

/// `Value::String`: a JSON string of the text.
#[verifier::external_body]
pub(crate) fn of_string(text: &str) -> (out: Value)
    ensures
        out == json_of_string(text@),
        json_string(out) == Some(text@),
{
    Value::String(text.to_owned())
}

/// `Value::Array`: a JSON array of the one item.
#[verifier::external_body]
pub(crate) fn of_item(item: Value) -> (out: Value)
    ensures
        out == json_of_item(item),
        json_array(out) == Some(seq![item]),
{
    Value::Array(vec![item])
}

/// `Value::Object`: a JSON object of the one member.
#[verifier::external_body]
pub(crate) fn of_member(key: &str, member: Value) -> (out: Value)
    ensures
        out == json_of_member(key@, member),
        json_object(out) == Some(Map::<Seq<char>, Value>::empty().insert(key@, member)),
{
    Value::Object(serde_json::Map::from_iter([(key.to_owned(), member)]))
}

/// `Map::insert` on the object that a value is: the member `key` is set, every
/// other member stays.
#[verifier::external_body]
pub(crate) fn insert(object: &mut Value, key: &str, member: Value)
    requires
        json_object(*old(object)) is Some,
    ensures
        *final(object) == json_with_member(*old(object), key@, member),
        json_object(*final(object)) == Some(json_object(*old(object))->0.insert(key@, member)),
{
    match object {
        Value::Object(members) => { members.insert(key.to_owned(), member); },
        _ => {},
    }
}

/// The string member `key`, where the value is an object that has one.
pub fn read_string(value: &Value, key: &str) -> (out: Option<String>)
    ensures
        text_of(out) == string_at(*value, key@),
{
    match get(value, key) {
        Some(member) => match as_str(member) {
            Some(text) => Some(text.to_owned()),
            None => None,
        },
        None => None,
    }
}

/// The string member `inner` of the member `outer`.
pub fn read_string_under(value: &Value, outer: &str, inner: &str) -> (out: Option<String>)
    ensures
        text_of(out) == string_under(*value, outer@, inner@),
{
    match get(value, outer) {
        Some(member) => read_string(member, inner),
        None => None,
    }
}

/// The boolean member `key`.
pub fn read_bool(value: &Value, key: &str) -> (out: Option<bool>)
    ensures
        out == bool_at(*value, key@),
{
    match get(value, key) {
        Some(member) => as_bool(member),
        None => None,
    }
}

/// The integer member `key`.
pub fn read_integer(value: &Value, key: &str) -> (out: Option<i64>)
    ensures
        out == integer_at(*value, key@),
{
    match get(value, key) {
        Some(member) => as_i64(member),
        None => None,
    }
}

/// The integer member `inner` of the member `outer`.
pub fn read_integer_under(value: &Value, outer: &str, inner: &str) -> (out: Option<i64>)
    ensures
        out == integer_under(*value, outer@, inner@),
{
    match get(value, outer) {
        Some(member) => read_integer(member, inner),
        None => None,
    }
}

} // verus!
