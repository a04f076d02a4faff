//! JSON documents, read through `serde_json`.
//!
//! A document is kept as the value `serde_json` parsed. The crate never looks
//! inside one directly: it asks for a member, for the elements of an array or
//! for the text of a string, and each answer is named here so that contracts
//! elsewhere can speak of it. What the names stand for is computed by
//! `serde_json` alone; the items of this module that are not proved say no
//! more than that a call returns what its name stands for.

use vstd::prelude::*;

verus! {

/// `serde_json::Value`, carried without a look inside.
#[verifier::external_type_specification]
#[verifier::external_body]
pub struct ExJsonValue(serde_json::Value);

/// `serde_json::Error`, carried without a look inside.
#[verifier::external_type_specification]
#[verifier::external_body]
pub struct ExJsonError(serde_json::Error);

/// What `serde_json::from_str` makes of a text: the document it holds, or
/// the message of the error that says why it holds none.
pub uninterp spec fn json_document(text: Seq<char>) -> Result<serde_json::Value, Seq<char>>;

/// What a `serde_json::Error` displays as.
pub uninterp spec fn json_error_message(error: serde_json::Error) -> Seq<char>;

/// What `Value::get` finds under a key: the member of that name where the
/// value is an object that has one.
pub uninterp spec fn json_member(value: serde_json::Value, key: Seq<char>) -> Option<
    serde_json::Value,
>;

/// What `Value::as_array` returns: the elements, where the value is an array.
pub uninterp spec fn json_elements(value: serde_json::Value) -> Option<Seq<serde_json::Value>>;

/// What `Value::as_str` returns: the text, where the value is a string.
pub uninterp spec fn json_string(value: serde_json::Value) -> Option<Seq<char>>;

/// The error with which `serde_json::from_value` refuses to shape a value
/// as a sequence of values, where it refuses.
pub uninterp spec fn json_sequence_refusal(value: serde_json::Value) -> serde_json::Error;

/// Calls `serde_json::from_str` for a `Value`. Not proved: that the result
/// is the one named by [`json_document`], with the error told by its message.
#[verifier::external_body]
pub(crate) fn parse_document(text: &str) -> (parsed: Result<serde_json::Value, serde_json::Error>)
    ensures
        match parsed {
            Ok(document) => json_document(text@) == Ok::<serde_json::Value, Seq<char>>(document),
            Err(error) => json_document(text@) == Err::<serde_json::Value, Seq<char>>(
                json_error_message(error),
            ),
        },
{
    serde_json::from_str::<serde_json::Value>(text)
}

/// Formats a `serde_json::Error` through its `Display`. Not proved: that the
/// text is the one named by [`json_error_message`].
#[verifier::external_body]
pub(crate) fn error_message(error: &serde_json::Error) -> (message: String)
    ensures
        message@ == json_error_message(*error),
{
    error.to_string()
}

/// Calls `Value::get` with a string key. Not proved: that the result is the
/// one named by [`json_member`].
#[verifier::external_body]
pub(crate) fn member<'a>(value: &'a serde_json::Value, key: &str) -> (found: Option<
    &'a serde_json::Value,
>)
    ensures
        match found {
            Some(member) => json_member(*value, key@) == Some(*member),
            None => json_member(*value, key@) is None,
        },
{
    value.get(key)
}

/// Calls `serde_json::from_value` for a `Vec<Value>` on a copy of the
/// value, and keeps the error. Not proved: that an error is the one named
/// by [`json_sequence_refusal`], and that only an array is not refused.
#[verifier::external_body]
pub(crate) fn sequence_refusal(value: &serde_json::Value) -> (refusal: Option<serde_json::Error>)
    ensures
        match refusal {
            Some(error) => error == json_sequence_refusal(*value),
            None => json_elements(*value) is Some,
        },
{
    serde_json::from_value::<Vec<serde_json::Value>>(value.clone()).err()
}

/// `Value::as_array`. Not proved: that the result is the one named by
/// [`json_elements`].
pub assume_specification<'a>[ serde_json::Value::as_array ](value: &'a serde_json::Value) -> (found:
    Option<&'a Vec<serde_json::Value>>)
    ensures
        match found {
            Some(elements) => json_elements(*value) == Some(elements@),
            None => json_elements(*value) is None,
        },
;

/// `Value::as_str`. Not proved: that the result is the one named by
/// [`json_string`].
pub assume_specification<'a>[ serde_json::Value::as_str ](value: &'a serde_json::Value) -> (found:
    Option<&'a str>)
    ensures
        match found {
            Some(text) => json_string(*value) == Some(text@),
            None => json_string(*value) is None,
        },
;

/// `Value::clone`. Not proved: that the copy equals the value it was made from.
pub assume_specification[ <serde_json::Value as Clone>::clone ](
    value: &serde_json::Value,
) -> (copy: serde_json::Value)
    ensures
        copy == *value,
;

} // verus!
