//! JSON documents, read through `serde_json`. A document is kept as the
//! parser's own value; what the library needs from it has a name here.

use vstd::prelude::*;

verus! {

/// `serde_json::Value`, taken as it is: a JSON document or a part of one.
#[verifier::external_type_specification]
#[verifier::external_body]
pub struct ExJsonValue(serde_json::Value);

/// The document that the bytes hold, where they hold one.
pub uninterp spec fn json_document(bytes: Seq<u8>) -> Option<serde_json::Value>;

/// The member of an object under a key.
pub uninterp spec fn json_member(value: serde_json::Value, key: Seq<char>) -> Option<
    serde_json::Value,
>;

/// The text of a value that is a string.
pub uninterp spec fn json_text(value: serde_json::Value) -> Option<Seq<char>>;

/// A value that is an integer of the signed 64-bit range.
pub uninterp spec fn json_signed(value: serde_json::Value) -> Option<i64>;

/// A value that is an integer of the unsigned 64-bit range.
pub uninterp spec fn json_unsigned(value: serde_json::Value) -> Option<u64>;

/// What the parser says of bytes that hold no document.
pub uninterp spec fn json_error_text(bytes: Seq<u8>) -> Seq<char>;

/// Whether a value is an object.
pub uninterp spec fn json_is_object(value: serde_json::Value) -> bool;

/// An object with the member under `key` set to a string.
pub uninterp spec fn json_with_text(value: serde_json::Value, key: Seq<char>, text: Seq<char>) -> serde_json::Value;

/// An object without the member under `key`.
pub uninterp spec fn json_without(value: serde_json::Value, key: Seq<char>) -> serde_json::Value;

/// A value written out with indentation, or what the serializer says where
/// it cannot be written.
pub uninterp spec fn json_pretty_text(value: serde_json::Value) -> Result<Seq<char>, Seq<char>>;

/// `serde_json::from_slice`: the document that the bytes hold, or the
/// parser's error where they are no single JSON document. The contract
/// gives the document the name `json_document` and the error's text the name
/// `json_error_text`.
#[verifier::external_body]
pub(crate) fn json_from_slice(bytes: &[u8]) -> (value: Result<serde_json::Value, String>)
    ensures
        match value {
            Ok(value) => json_document(bytes@) == Some(value),
            Err(error) => json_document(bytes@) is None && error@ == json_error_text(bytes@),
        },
{
    match serde_json::from_slice::<serde_json::Value>(bytes) {
        Ok(value) => Ok(value),
        Err(error) => Err(error.to_string()),
    }
}

/// `serde_json::Map::insert` on the members of an object: sets the member
/// under `key` to the string `text`. The contract gives the object that
/// results the name `json_with_text`; a value that is no object stays as it
/// is.
#[verifier::external_body]
pub(crate) fn json_set_text(value: &mut serde_json::Value, key: &str, text: &str)
    ensures
        json_is_object(*old(value)) ==> *final(value) == json_with_text(*old(value), key@, text@),
        !json_is_object(*old(value)) ==> *final(value) == *old(value),
{
    if let Some(members) = value.as_object_mut() {
        members.insert(key.to_string(), serde_json::Value::String(text.to_string()));
    }
}

/// `serde_json::Map::remove` on the members of an object: removes the
/// member under `key`. The contract gives the object that results the name
/// `json_without`; a value that is no object stays as it is.
#[verifier::external_body]
pub(crate) fn json_remove(value: &mut serde_json::Value, key: &str)
    ensures
        json_is_object(*old(value)) ==> *final(value) == json_without(*old(value), key@),
        !json_is_object(*old(value)) ==> *final(value) == *old(value),
{
    if let Some(members) = value.as_object_mut() {
        members.remove(key);
    }
}

/// `serde_json::to_string_pretty`: the value written out with indentation,
/// or the serializer's error. The contract gives the result the name
/// `json_pretty_text`.
#[verifier::external_body]
pub(crate) fn json_pretty(value: &serde_json::Value) -> (text: Result<String, String>)
    ensures
        crate::notes::result_view(text) == json_pretty_text(*value),
{
    match serde_json::to_string_pretty(value) {
        Ok(text) => Ok(text),
        Err(error) => Err(error.to_string()),
    }
}

/// `serde_json::Value::is_object`: whether the value is an object. The
/// contract gives the result the name `json_is_object`.
pub assume_specification[ serde_json::Value::is_object ](value: &serde_json::Value) -> (object: bool)
    ensures
        object == json_is_object(*value),
;

/// `serde_json::Value::get` with a string index: the member under `key`
/// where the value is an object that has one. The contract gives the result
/// the name `json_member`.
#[verifier::external_body]
pub(crate) fn json_get<'a>(value: &'a serde_json::Value, key: &str) -> (member: Option<
    &'a serde_json::Value,
>)
    ensures
        match member {
            Some(member) => json_member(*value, key@) == Some(*member),
            None => json_member(*value, key@) is None,
        },
{
    value.get(key)
}

/// `serde_json::Value::as_str`: the text where the value is a string, and
/// nothing where it is anything else. The contract gives the result the name
/// `json_text`.
pub assume_specification<'a>[ serde_json::Value::as_str ](value: &'a serde_json::Value) -> (text:
    Option<&'a str>)
    ensures
        match text {
            Some(text) => json_text(*value) == Some(text@),
            None => json_text(*value) is None,
        },
;

/// `serde_json::Value::as_i64`: the number where the value is an integer
/// that fits in `i64`. The contract gives the result the name `json_signed`.
pub assume_specification[ serde_json::Value::as_i64 ](value: &serde_json::Value) -> (number: Option<
    i64,
>)
    ensures
        number == json_signed(*value),
;

/// `serde_json::Value::as_u64`: the number where the value is an integer
/// that fits in `u64`. The contract gives the result the name
/// `json_unsigned`.
pub assume_specification[ serde_json::Value::as_u64 ](value: &serde_json::Value) -> (number: Option<
    u64,
>)
    ensures
        number == json_unsigned(*value),
;

} // verus!
