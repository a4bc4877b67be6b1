//! JSON values, which the crate `serde_json` parses, changes and writes.
//!
//! Verus does not look inside a `serde_json::Value`. The contracts below
//! speak of a value through the compact JSON text that stands for it: two
//! values that are written the same are taken to be the same.

use vstd::prelude::*;

verus! {

/// A JSON value of the crate `serde_json`.
#[verifier::external_type_specification]
#[verifier::external_body]
pub struct ExJsonValue(serde_json::Value);

/// The error of the crate `serde_json`.
#[verifier::external_type_specification]
#[verifier::external_body]
pub struct ExJsonError(serde_json::Error);

/// What a JSON value holds: the compact JSON text that `serde_json`
/// writes for it.
pub uninterp spec fn json_text(value: serde_json::Value) -> Seq<char>;

/// What an error of `serde_json` holds: the message that it shows.
pub uninterp spec fn json_error_text(error: serde_json::Error) -> Seq<char>;

/// What `serde_json::from_str` makes of `text`: the value that it reads,
/// given by its compact text, or the message of the error that it finds.
pub uninterp spec fn json_parsed(text: Seq<char>) -> Result<Seq<char>, Seq<char>>;

/// The compact text of the object with the text `object` after the member
/// `key` has been set to the string `member` with `Map::insert`.
pub uninterp spec fn json_with_member(object: Seq<char>, key: Seq<char>, member: Seq<char>) -> Seq<
    char,
>;

/// Whether `text`, the compact text of a JSON value, is that of an object:
/// of all values only an object is written with a brace first.
pub open spec fn is_object_text(text: Seq<char>) -> bool {
    text.len() > 0 && text[0] == '{'
}

/// `serde_json::to_string` on a value. It writes the compact text of the
/// value, and on a `Value` it does not fail.
#[verifier::external_body]
pub(crate) fn value_to_string(value: &serde_json::Value) -> (r: String)
    ensures
        r@ == json_text(*value),
{
    match serde_json::to_string(value) {
        Ok(text) => text,
        Err(_) => String::new(),
    }
}

/// `serde_json::from_str` for a `Value`. What it returns depends on the
/// text alone and goes by the name `json_parsed`.
#[verifier::external_body]
pub(crate) fn value_from_str(text: &str) -> (r: Result<serde_json::Value, serde_json::Error>)
    ensures
        match r {
            Ok(value) => json_parsed(text@) == Ok::<Seq<char>, Seq<char>>(json_text(value)),
            Err(error) => json_parsed(text@) == Err::<Seq<char>, Seq<char>>(
                json_error_text(error),
            ),
        },
{
    serde_json::from_str::<serde_json::Value>(text)
}

/// The `Display` of `serde_json::Error`: the message of the error.
#[verifier::external_body]
pub(crate) fn error_to_string(error: &serde_json::Error) -> (r: String)
    ensures
        r@ == json_error_text(*error),
{
    error.to_string()
}

/// `Value::is_object`: whether the value is an object, which shows in the
/// first character of its text.
#[verifier::external_body]
pub(crate) fn value_is_object(value: &serde_json::Value) -> (r: bool)
    ensures
        r == is_object_text(json_text(*value)),
{
    value.is_object()
}

/// `Clone::clone` of `serde_json::Value`: a value with the same text.
#[verifier::external_body]
pub(crate) fn value_clone(value: &serde_json::Value) -> (r: serde_json::Value)
    ensures
        json_text(r) == json_text(*value),
{
    value.clone()
}

/// `Value::as_object_mut` and `Map::insert` with a `Value::String`: sets
/// the member `key` of an object to the string `member`. The text of the
/// object afterwards goes by the name `json_with_member`.
#[verifier::external_body]
pub(crate) fn set_string_member(value: &mut serde_json::Value, key: &str, member: &str)
    requires
        is_object_text(json_text(*old(value))),
    ensures
        json_text(*final(value)) == json_with_member(json_text(*old(value)), key@, member@),
{
    if let Some(object) = value.as_object_mut() {
        object.insert(key.to_string(), serde_json::Value::String(member.to_string()));
    }
}

} // verus!
