//! The JSON documents that a configuration is read from. The text is parsed
//! by `serde_json`; this module declares its value type and states what the
//! calls that the decoder makes give back.

use vstd::prelude::*;

verus! {

#[verifier::external_type_specification]
#[verifier::external_body]
pub struct ExJsonValue(serde_json::Value);

/// The document that a text denotes, if it is well-formed JSON.
pub uninterp spec fn json_document(text: Seq<char>) -> Option<serde_json::Value>;

/// The members of a JSON object by name; no member at all for a value that
/// is no object.
pub uninterp spec fn json_members(value: serde_json::Value) -> Map<Seq<char>, serde_json::Value>;

/// The characters of a JSON string; `None` for a value that is no string.
pub uninterp spec fn json_text(value: serde_json::Value) -> Option<Seq<char>>;

/// How many members a JSON object has; `None` for a value that is no object.
pub uninterp spec fn json_member_count(value: serde_json::Value) -> Option<nat>;

/// Whether the value is the JSON `null`.
pub uninterp spec fn json_is_null(value: serde_json::Value) -> bool;

/// The elements of a JSON array in their order; `None` for a value that is
/// no array.
pub uninterp spec fn json_elements(value: serde_json::Value) -> Option<Seq<serde_json::Value>>;

/// `serde_json::from_str::<Value>`: the parsed document, or `None` where the
/// parser reports an error. Not proved: that the outcome depends on the text
/// alone, which is what equating it with `json_document` claims.
#[verifier::external_body]
pub(crate) fn parse_document(text: &str) -> (r: Option<serde_json::Value>)
    ensures
        r == json_document(text@),
{
    serde_json::from_str::<serde_json::Value>(text).ok()
}

/// `serde_json::Value::get` with a string index: the member of that name
/// where the value is an object that has one, else `None`. Not proved: that
/// this is what `json_members` holds.
#[verifier::external_body]
pub(crate) fn member<'a>(value: &'a serde_json::Value, name: &str) -> (r: Option<
    &'a serde_json::Value,
>)
    ensures
        r is Some <==> json_members(*value).contains_key(name@),
        r matches Some(found) ==> *found == json_members(*value)[name@],
{
    value.get(name)
}

/// `serde_json::Value::as_str`: the string's content where the value is a
/// string, else `None`. Not proved: that this is what `json_text` holds.
#[verifier::external_body]
pub(crate) fn text_of<'a>(value: &'a serde_json::Value) -> (r: Option<&'a str>)
    ensures
        r is Some <==> json_text(*value) is Some,
        r matches Some(s) ==> json_text(*value) == Some(s@),
{
    value.as_str()
}

/// `serde_json::Value::as_object`, then `serde_json::Map::len` of the map
/// that it gives: the number of the object's members, or `None` where the
/// value is no object. Not proved: that this is what `json_member_count`
/// holds.
#[verifier::external_body]
pub(crate) fn member_count(value: &serde_json::Value) -> (r: Option<usize>)
    ensures
        r is Some <==> json_member_count(*value) is Some,
        r matches Some(n) ==> json_member_count(*value) == Some(n as nat),
{
    match value.as_object() {
        Some(members) => Some(members.len()),
        None => None,
    }
}

/// `serde_json::Value::as_array`, then `Vec::len` of the vector that it
/// gives: the number of the array's elements, or `None` where the value is
/// no array. Not proved: that this is what `json_elements` holds.
#[verifier::external_body]
pub(crate) fn element_count(value: &serde_json::Value) -> (r: Option<usize>)
    ensures
        r is Some <==> json_elements(*value) is Some,
        r matches Some(n) ==> json_elements(*value).unwrap().len() == n,
{
    match value.as_array() {
        Some(elements) => Some(elements.len()),
        None => None,
    }
}

/// `serde_json::Value::get` with a number as index: the element at that
/// place where the value is an array that has one, else `None`. Not proved:
/// that this is what `json_elements` holds.
#[verifier::external_body]
pub(crate) fn element<'a>(value: &'a serde_json::Value, index: usize) -> (r: Option<
    &'a serde_json::Value,
>)
    ensures
        r is Some <==> (json_elements(*value) is Some && index < json_elements(
            *value,
        ).unwrap().len()),
        r matches Some(found) ==> *found == json_elements(*value).unwrap()[index as int],
{
    value.get(index)
}

/// `serde_json::Value::is_null`: whether the value is `null`. Not proved:
/// that this is what `json_is_null` holds.
#[verifier::external_body]
pub(crate) fn is_null(value: &serde_json::Value) -> (r: bool)
    ensures
        r == json_is_null(*value),
{
    value.is_null()
}

} // verus!
