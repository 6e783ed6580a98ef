//! A parsed JSON document: one input record, or one response of the store.

use vstd::prelude::*;
use crate::json::{
    get_member, index_member, json_parse, json_text, json_view, member, member_or_null,
    parse_value, remove_member, string_content, without, write_value, Json,
};

verus! {

/// A JSON document. Its view is its content as a [`Json`] value.
#[derive(Debug, PartialEq, Eq)]
pub struct Document {
    value: serde_json::Value,
}

/// The one way in which a text fails to become a document: it is not JSON.
#[derive(Clone, Copy, Debug, PartialEq, Eq, Structural)]
pub struct NotJson;

impl View for Document {
    type V = Json;

    closed spec fn view(&self) -> Json {
        json_view(self.value)
    }
}

/// The characters of the string that `doc` holds under `key`, if it holds a string
/// there. A member of any other kind counts as no string at all.
pub open spec fn string_under(doc: Json, key: Seq<char>) -> Option<Seq<char>> {
    match member(doc, key) {
        Some(Json::Text(text)) => Some(text),
        _ => None,
    }
}

/// The compact text of the member that `doc` holds under `key`, if it holds one.
pub open spec fn text_under(doc: Json, key: Seq<char>) -> Option<Seq<char>> {
    match member(doc, key) {
        Some(value) => Some(json_text(value)),
        None => None,
    }
}

impl Document {
    /// Parses one JSON text. Fails exactly on the texts that are not JSON.
    pub fn parse(text: &str) -> (parsed: Result<Document, NotJson>)
        ensures
            match parsed {
                Ok(doc) => json_parse(text@) == Some(doc@),
                Err(_) => json_parse(text@) is None,
            },
    {
        match parse_value(text) {
            Ok(value) => Ok(Document { value }),
            Err(_) => Err(NotJson),
        }
    }

    /// The string under `key`, copied out.
    pub fn string_member(&self, key: &str) -> (found: Option<String>)
        ensures
            match found {
                Some(text) => string_under(self@, key@) == Some(text@),
                None => string_under(self@, key@) is None,
            },
    {
        match get_member(&self.value, key) {
            Some(inner) => match string_content(inner) {
                Some(text) => Some(text.to_owned()),
                None => None,
            },
            None => None,
        }
    }

    /// The member under `key`, written as compact JSON.
    pub fn member_text(&self, key: &str) -> (found: Option<String>)
        ensures
            match found {
                Some(text) => text_under(self@, key@) == Some(text@),
                None => text_under(self@, key@) is None,
            },
    {
        match get_member(&self.value, key) {
            Some(inner) => Some(write_value(inner)),
            None => None,
        }
    }

    /// The member under `key`, written as compact JSON; `null` is written where
    /// the document has no such member.
    pub fn member_text_or_null(&self, key: &str) -> (text: String)
        ensures
            text@ == json_text(member_or_null(self@, key@)),
    {
        write_value(index_member(&self.value, key))
    }

    /// Takes the member under `key` out of the document.
    pub fn remove(&mut self, key: &str)
        ensures
            final(self)@ == without(old(self)@, key@),
    {
        remove_member(&mut self.value, key);
    }

    /// The whole document, written as compact JSON.
    pub fn text(&self) -> (text: String)
        ensures
            text@ == json_text(self@),
    {
        write_value(&self.value)
    }
}

} // verus!
