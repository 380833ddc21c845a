//! JSON, as `serde_json` reads and writes it.
//!
//! Nothing in this file is proved: each function hands its arguments to
//! `serde_json`, and its contract says what `serde_json` does with them. What
//! a parsed value holds is told by [`json_content`], a mathematical value
//! that the contracts of the library are written over.

use vstd::prelude::*;

verus! {

/// A JSON value that `serde_json` has parsed. What it holds is read through
/// [`member`], [`text`] and [`items`].
#[verifier::external_type_specification]
#[verifier::external_body]
pub struct ExValue(serde_json::Value);

/// The reason for which `serde_json` gave up.
#[verifier::external_type_specification]
#[verifier::external_body]
pub struct ExError(serde_json::Error);

/// What a JSON value holds. Of a number only that it is one.
pub enum Json {
    Null,
    Bool(bool),
    Number,
    Text(Seq<char>),
    Array(Seq<Json>),
    Object(Map<Seq<char>, Json>),
}

impl Json {
    /// The member of an object under `key`; nothing if there is none or this
    /// is no object.
    pub open spec fn member(self, key: Seq<char>) -> Option<Json> {
        match self {
            Json::Object(members) => if members.contains_key(key) {
                Some(members[key])
            } else {
                None
            },
            _ => None,
        }
    }

    /// The text of a string; nothing if this is no string.
    pub open spec fn text(self) -> Option<Seq<char>> {
        match self {
            Json::Text(text) => Some(text),
            _ => None,
        }
    }

    /// The elements of an array; nothing if this is no array.
    pub open spec fn items(self) -> Option<Seq<Json>> {
        match self {
            Json::Array(items) => Some(items),
            _ => None,
        }
    }
}

/// What a `serde_json::Value` holds.
pub uninterp spec fn json_content(value: serde_json::Value) -> Json;

/// What each of some values holds, in order.
pub open spec fn json_contents(values: Seq<serde_json::Value>) -> Seq<Json> {
    Seq::new(values.len(), |i: int| json_content(values[i]))
}

/// What `serde_json::from_slice` reads out of `bytes`, or `None` where it
/// reports an error.
pub uninterp spec fn json_document(bytes: Seq<u8>) -> Option<Json>;

/// The string literal that `serde_json::to_string` writes for `text`, quotes
/// included, or `None` where it reports an error.
pub uninterp spec fn json_quoted(text: Seq<char>) -> Option<Seq<char>>;

/// Calls `serde_json::from_slice` for a `serde_json::Value`: the bytes are
/// parsed as one JSON document, with nothing but white space around it. The
/// same bytes always give the same outcome, and no bytes at all are no
/// document.
#[verifier::external_body]
pub(crate) fn parse_document(bytes: &[u8]) -> (outcome: Result<
    serde_json::Value,
    serde_json::Error,
>)
    ensures
        match outcome {
            Ok(value) => json_document(bytes@) == Some(json_content(value)),
            Err(_) => json_document(bytes@) is None,
        },
        bytes@.len() == 0 ==> outcome is Err,
{
    serde_json::from_slice::<serde_json::Value>(bytes)
}

/// Calls `serde_json::to_string` on a string slice: the text is written as a
/// JSON string literal, in quotes and with what needs it escaped. The same
/// text always gives the same outcome.
#[verifier::external_body]
pub(crate) fn quote(text: &str) -> (outcome: Result<String, serde_json::Error>)
    ensures
        match outcome {
            Ok(quoted) => json_quoted(text@) == Some(quoted@),
            Err(_) => json_quoted(text@) is None,
        },
{
    serde_json::to_string(text)
}

/// Calls `serde_json::Value::get` with a string: the member of an object
/// under that key; nothing if the key is absent or the value is no object.
#[verifier::external_body]
pub(crate) fn member<'a>(value: &'a serde_json::Value, key: &str) -> (found: Option<
    &'a serde_json::Value,
>)
    ensures
        match found {
            Some(inner) => json_content(*value).member(key@) == Some(json_content(*inner)),
            None => json_content(*value).member(key@) is None,
        },
{
    value.get(key)
}

/// Calls `serde_json::Value::as_str`: the text of a string; nothing if the
/// value is no string.
#[verifier::external_body]
pub(crate) fn text<'a>(value: &'a serde_json::Value) -> (found: Option<&'a str>)
    ensures
        match found {
            Some(inner) => json_content(*value).text() == Some(inner@),
            None => json_content(*value).text() is None,
        },
{
    value.as_str()
}

/// Calls `serde_json::Value::as_array`: the elements of an array, in order;
/// nothing if the value is no array.
#[verifier::external_body]
pub(crate) fn items<'a>(value: &'a serde_json::Value) -> (found: Option<
    &'a Vec<serde_json::Value>,
>)
    ensures
        match found {
            Some(inner) => json_content(*value).items() == Some(json_contents(inner@)),
            None => json_content(*value).items() is None,
        },
{
    value.as_array()
}

} // verus!
