//! The boundary to the JSON parser: the few questions that the engine asks of
//! a parsed document, each answered by one call into `serde_json`.
//!
//! A parsed value is opaque here. What the contracts know of one is its
//! compact text, and every answer is stated as a function of that text.

use vstd::prelude::*;

verus! {

#[verifier::external_type_specification]
#[verifier::external_body]
pub struct ExValue(serde_json::Value);

#[verifier::external_type_specification]
#[verifier::external_body]
pub struct ExJsonError(serde_json::Error);

/// Which of the six kinds of JSON value a value is.
#[derive(Clone, Copy, Debug, PartialEq, Eq, Structural)]
pub enum JsonKind {
    Null,
    Bool,
    Number,
    String,
    Array,
    Object,
}

/// The compact JSON text of a value, as `serde_json` prints it.
pub uninterp spec fn value_text(v: serde_json::Value) -> Seq<char>;

/// The compact text of the document that `text` parses to, or `None` where
/// `text` is not one well-formed JSON document.
pub uninterp spec fn json_document(text: Seq<char>) -> Option<Seq<char>>;

/// The compact text of the member `key` of the object `doc`, or `None` where
/// `doc` is no object or has no such member.
pub uninterp spec fn json_member(doc: Seq<char>, key: Seq<char>) -> Option<Seq<char>>;

/// The kind of the value with the compact text `doc`.
pub uninterp spec fn json_kind(doc: Seq<char>) -> JsonKind;

/// The characters of the string with the compact text `doc`, or `None` where
/// `doc` is no string.
pub uninterp spec fn json_string(doc: Seq<char>) -> Option<Seq<char>>;

/// The truth value with the compact text `doc`, or `None` where `doc` is
/// neither `true` nor `false`.
pub uninterp spec fn json_bool(doc: Seq<char>) -> Option<bool>;

/// The number with the compact text `doc` where it is a number that was
/// written without sign, fraction or exponent and is at most 2^64 - 1, and
/// `None` for every other value.
pub uninterp spec fn json_u64(doc: Seq<char>) -> Option<u64>;

/// Calls `serde_json::from_str` for a `Value`: the document that `text`
/// parses to, or the parser's error where `text` is not well-formed JSON.
#[verifier::external_body]
pub(crate) fn parse_value(text: &str) -> (res: Result<serde_json::Value, serde_json::Error>)
    ensures
        match res {
            Ok(v) => json_document(text@) == Some(value_text(v)),
            Err(_) => json_document(text@) is None,
        },
{
    serde_json::from_str::<serde_json::Value>(text)
}

/// Calls `Value::get` with a string key: the member of that name where the
/// value is an object that has one, and `None` otherwise.
#[verifier::external_body]
pub(crate) fn member<'a>(v: &'a serde_json::Value, key: &str) -> (res: Option<
    &'a serde_json::Value,
>)
    ensures
        match res {
            Some(m) => json_member(value_text(*v), key@) == Some(value_text(*m)),
            None => json_member(value_text(*v), key@) is None,
        },
{
    v.get(key)
}

/// Tells the six variants of `Value` apart.
#[verifier::external_body]
pub(crate) fn kind_of(v: &serde_json::Value) -> (kind: JsonKind)
    ensures
        kind == json_kind(value_text(*v)),
{
    match v {
        serde_json::Value::Null => JsonKind::Null,
        serde_json::Value::Bool(_) => JsonKind::Bool,
        serde_json::Value::Number(_) => JsonKind::Number,
        serde_json::Value::String(_) => JsonKind::String,
        serde_json::Value::Array(_) => JsonKind::Array,
        serde_json::Value::Object(_) => JsonKind::Object,
    }
}

/// Calls `Value::as_str`: the characters of a string value, `None` for a
/// value of any other kind.
#[verifier::external_body]
pub(crate) fn as_string<'a>(v: &'a serde_json::Value) -> (res: Option<&'a str>)
    ensures
        match res {
            Some(s) => json_string(value_text(*v)) == Some(s@),
            None => json_string(value_text(*v)) is None,
        },
{
    v.as_str()
}

/// Calls `Value::as_bool`: the truth value of a boolean value, `None` for a
/// value of any other kind.
#[verifier::external_body]
pub(crate) fn as_boolean(v: &serde_json::Value) -> (res: Option<bool>)
    ensures
        res == json_bool(value_text(*v)),
{
    v.as_bool()
}

/// Calls `Value::as_u64`: the number where the value is one that the parser
/// keeps as an integer of 64 bits without a sign, `None` for every other value.
#[verifier::external_body]
pub(crate) fn as_unsigned(v: &serde_json::Value) -> (res: Option<u64>)
    ensures
        res == json_u64(value_text(*v)),
{
    v.as_u64()
}

/// Prints a value through its `Display` impl, which writes compact JSON.
#[verifier::external_body]
pub(crate) fn render(v: &serde_json::Value) -> (text: String)
    ensures
        text@ == value_text(*v),
{
    v.to_string()
}

} // verus!
