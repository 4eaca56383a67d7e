//! The JSON reader that the settings document is handed to.
//!
//! Parsing and navigation are done by `serde_json`. This module says what the
//! rest of the crate relies on: what a parsed value is, as far as the crate
//! looks into it, and what the three calls it makes return.

use vstd::prelude::*;

verus! {

/// A JSON value as far as this crate looks into one: an object with its
/// members, a string with its characters, or something else.
pub enum Json {
    Object(Map<Seq<char>, Json>),
    Text(Seq<char>),
    Other,
}

impl Json {
    /// The member that an object holds under `key`; `None` where the value is
    /// no object or the object has no such member.
    pub open spec fn member(self, key: Seq<char>) -> Option<Json> {
        match self {
            Json::Object(members) => if members.contains_key(key) {
                Some(members[key])
            } else {
                None
            },
            _ => None,
        }
    }

    /// The characters of a string; `None` for every other kind of value.
    pub open spec fn text(self) -> Option<Seq<char>> {
        match self {
            Json::Text(text) => Some(text),
            _ => None,
        }
    }

    /// The text of the member `key`, where the value is an object and that
    /// member is a string.
    pub open spec fn text_member(self, key: Seq<char>) -> Option<Seq<char>> {
        match self.member(key) {
            Some(value) => value.text(),
            None => None,
        }
    }
}

/// A parsed JSON value of `serde_json`.
#[verifier::external_type_specification]
#[verifier::external_body]
pub struct ExJsonValue(serde_json::Value);

/// Why `serde_json` did not accept a text.
#[verifier::external_type_specification]
#[verifier::external_body]
pub struct ExJsonError(serde_json::Error);

/// What a parsed value holds.
pub uninterp spec fn json_view(value: serde_json::Value) -> Json;

/// The value that a text denotes when it is read as one JSON document, and
/// `None` where the text is no such document.
pub uninterp spec fn json_parse(text: Seq<char>) -> Option<Json>;

/// `serde_json::from_str`, reading one whole document into a `Value`. Whether
/// the call succeeds, and with what value, depends on the text alone:
/// [`json_parse`] stands for that.
#[verifier::external_body]
pub(crate) fn parse(text: &str) -> (parsed: Result<serde_json::Value, serde_json::Error>)
    ensures
        match parsed {
            Ok(value) => json_parse(text@) == Some(json_view(value)),
            Err(_) => json_parse(text@) is None,
        },
{
    serde_json::from_str::<serde_json::Value>(text)
}

/// `serde_json::Value::get` with a string index: the member of an object under
/// that key, and `None` for a key that the object lacks and for a value that
/// is no object.
#[verifier::external_body]
pub(crate) fn member<'a>(value: &'a serde_json::Value, key: &str) -> (found: Option<
    &'a serde_json::Value,
>)
    ensures
        match found {
            Some(inner) => json_view(*value).member(key@) == Some(json_view(*inner)),
            None => json_view(*value).member(key@) is None,
        },
{
    value.get(key)
}

/// `serde_json::Value::as_str`: the text of a JSON string, and `None` for any
/// other kind of value.
#[verifier::external_body]
pub(crate) fn string_value<'a>(value: &'a serde_json::Value) -> (found: Option<&'a str>)
    ensures
        match found {
            Some(text) => json_view(*value).text() == Some(text@),
            None => json_view(*value).text() is None,
        },
{
    value.as_str()
}

} // verus!
