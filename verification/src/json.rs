//! JSON values, held as `serde_json` holds them.
//!
//! Parsing and writing JSON text is `serde_json`'s work. This module gives a JSON
//! value a mathematical content, [`Json`], and states what the library assumes of
//! the handful of `serde_json` functions it calls. Nothing in this file is proved:
//! the functions marked `external_body` are believed as they are written here.

use vstd::prelude::*;

verus! {

#[verifier::external_type_specification]
#[verifier::external_body]
pub struct ExValue(serde_json::Value);

#[verifier::external_type_specification]
#[verifier::external_body]
pub struct ExJsonError(serde_json::Error);

/// What a JSON value is: one of the six kinds of JSON, with its content.
pub enum Json {
    Null,
    Bool(bool),
    /// A number, kept as the digits by which it is written.
    Number(Seq<char>),
    /// A string, by its characters (unescaped).
    Text(Seq<char>),
    Array(Seq<Json>),
    /// An object: its members by key. No key occurs twice.
    Object(Map<Seq<char>, Json>),
}

/// The member of `doc` under `key`: present only where `doc` is an object that has
/// that key.
pub open spec fn member(doc: Json, key: Seq<char>) -> Option<Json> {
    match doc {
        Json::Object(members) => if members.contains_key(key) {
            Some(members[key])
        } else {
            None
        },
        _ => None,
    }
}

/// The member of `doc` under `key`, and `null` where there is none.
pub open spec fn member_or_null(doc: Json, key: Seq<char>) -> Json {
    match member(doc, key) {
        Some(value) => value,
        None => Json::Null,
    }
}

/// `doc` with the member under `key` taken out. A value that is no object, or has
/// no such member, is left as it is.
pub open spec fn without(doc: Json, key: Seq<char>) -> Json {
    match doc {
        Json::Object(members) => Json::Object(members.remove(key)),
        _ => doc,
    }
}

/// The content of a `serde_json::Value`.
pub uninterp spec fn json_view(value: serde_json::Value) -> Json;

/// What `serde_json::from_str` makes of a text: the content of the value it
/// returns, or `None` where it rejects the text.
pub uninterp spec fn json_parse(text: Seq<char>) -> Option<Json>;

/// The compact JSON text that `serde_json` writes for a value of this content.
pub uninterp spec fn json_text(doc: Json) -> Seq<char>;

/// `serde_json::from_str::<Value>`. Assumed: it accepts or rejects a text, and
/// builds its value, by the characters of the text alone.
#[verifier::external_body]
pub(crate) fn parse_value(text: &str) -> (parsed: Result<serde_json::Value, serde_json::Error>)
    ensures
        match parsed {
            Ok(value) => json_parse(text@) == Some(json_view(value)),
            Err(_) => json_parse(text@) is None,
        },
{
    serde_json::from_str::<serde_json::Value>(text)
}

/// `Value::get` with a string index. Assumed: it returns the member under `key`
/// of an object that has one, and `None` for a missing key and for any value that
/// is no object.
#[verifier::external_body]
pub(crate) fn get_member<'a>(value: &'a serde_json::Value, key: &str) -> (found: Option<
    &'a serde_json::Value,
>)
    ensures
        match found {
            Some(inner) => member(json_view(*value), key@) == Some(json_view(*inner)),
            None => member(json_view(*value), key@) is None,
        },
{
    value.get(key)
}

/// Indexing a `Value` with a string, `value[key]`. Assumed: it returns what
/// `Value::get` finds, and a `null` value where that finds nothing.
#[verifier::external_body]
pub(crate) fn index_member<'a>(value: &'a serde_json::Value, key: &str) -> (inner:
    &'a serde_json::Value)
    ensures
        json_view(*inner) == member_or_null(json_view(*value), key@),
{
    &value[key]
}

/// `Value::as_str`. Assumed: it returns the characters of a JSON string, and
/// `None` for a value of any other kind.
#[verifier::external_body]
pub(crate) fn string_content<'a>(value: &'a serde_json::Value) -> (content: Option<&'a str>)
    ensures
        match content {
            Some(text) => json_view(*value) == Json::Text(text@),
            None => !(json_view(*value) is Text),
        },
{
    value.as_str()
}

/// `Map::remove` on the members of an object. Assumed: the member under `key`
/// leaves the object and every other member stays; a value that is no object is
/// not touched.
#[verifier::external_body]
pub(crate) fn remove_member(value: &mut serde_json::Value, key: &str)
    ensures
        json_view(*final(value)) == without(json_view(*old(value)), key@),
{
    match value {
        serde_json::Value::Object(members) => {
            members.remove(key);
        },
        _ => {},
    }
}

/// `Value::to_string`, the `Display` of a value. Assumed: it writes compact JSON,
/// and the text depends on the content of the value alone.
#[verifier::external_body]
pub(crate) fn write_value(value: &serde_json::Value) -> (text: String)
    ensures
        text@ == json_text(json_view(*value)),
{
    value.to_string()
}

} // verus!
