//! What the store answers: from the body of a response to one line of output.

use vstd::prelude::*;
use vstd::string::*;
use vstd::utf8::{decode_utf8, encode_utf8, valid_utf8};
use crate::document::{text_under, Document};
use crate::json::{json_parse, Json};

verus! {

broadcast use vstd::utf8::group_utf8_lib;

/// Why a response gives no result.
#[derive(Clone, Copy, Debug, PartialEq, Eq, Structural)]
pub enum ResponseError {
    /// The body is not UTF-8 text.
    NotUtf8,
    /// The body is not JSON.
    NotJson,
    /// The response has no `_id` member.
    NoIdentifier,
    /// The response has no `result` member.
    NoOutcome,
}

/// The outcome of one upsert, as the store reports it. Both parts are kept as the
/// store wrote them, that is as JSON: a string keeps its quotes.
#[derive(Debug, PartialEq, Eq)]
pub struct UpsertResult {
    /// The `_id` member of the response.
    pub id: String,
    /// The `result` member of the response.
    pub outcome: String,
}

/// An upsert result, by the characters of its texts.
pub struct UpsertResultView {
    pub id: Seq<char>,
    pub outcome: Seq<char>,
}

impl View for UpsertResult {
    type V = UpsertResultView;

    open spec fn view(&self) -> UpsertResultView {
        UpsertResultView { id: self.id@, outcome: self.outcome@ }
    }
}

/// A result or an error, with the result taken by its view.
pub open spec fn outcome_view(outcome: Result<UpsertResult, ResponseError>) -> Result<
    UpsertResultView,
    ResponseError,
> {
    match outcome {
        Ok(result) => Ok(result@),
        Err(error) => Err(error),
    }
}

/// The result that a parsed response reports: its `_id` and `result` members,
/// each as compact JSON. A response that lacks one of them reports nothing.
pub open spec fn summary(response: Json) -> Result<UpsertResultView, ResponseError> {
    match (text_under(response, "_id"@), text_under(response, "result"@)) {
        (None, _) => Err(ResponseError::NoIdentifier),
        (Some(_), None) => Err(ResponseError::NoOutcome),
        (Some(id), Some(outcome)) => Ok(UpsertResultView { id, outcome }),
    }
}

/// The result that the body of a response reports.
pub open spec fn interpretation(body: Seq<u8>) -> Result<UpsertResultView, ResponseError> {
    if !valid_utf8(body) {
        Err(ResponseError::NotUtf8)
    } else {
        match json_parse(decode_utf8(body)) {
            Some(response) => summary(response),
            None => Err(ResponseError::NotJson),
        }
    }
}

/// The line of output for a result: identifier, colon, space, outcome.
pub open spec fn output_line(result: UpsertResultView) -> Seq<char> {
    result.id + ": "@ + result.outcome
}

/// `std::str::from_utf8`. Assumed: it accepts exactly the byte strings that are
/// valid UTF-8, and the text it returns is made of the bytes it was given.
#[verifier::external_body]
fn utf8_text(bytes: &[u8]) -> (text: Option<&str>)
    ensures
        match text {
            Some(decoded) => valid_utf8(bytes@) && decoded.spec_bytes() == bytes@,
            None => !valid_utf8(bytes@),
        },
{
    std::str::from_utf8(bytes).ok()
}

impl UpsertResult {
    /// The line of output for this result.
    pub fn render(&self) -> (line: String)
        ensures
            line@ == output_line(self@),
    {
        let mut line = self.id.clone();
        line.append(": ");
        line.append(self.outcome.as_str());
        line
    }
}

/// Reads the result out of a parsed response.
pub fn summarize(response: &Document) -> (outcome: Result<UpsertResult, ResponseError>)
    ensures
        outcome_view(outcome) == summary(response@),
{
    match response.member_text("_id") {
        None => Err(ResponseError::NoIdentifier),
        Some(id) => match response.member_text("result") {
            None => Err(ResponseError::NoOutcome),
            Some(outcome) => Ok(UpsertResult { id, outcome }),
        },
    }
}

/// Reads the result out of the body of a response, once all of it has arrived.
pub fn interpret(body: &[u8]) -> (outcome: Result<UpsertResult, ResponseError>)
    ensures
        outcome_view(outcome) == interpretation(body@),
{
    match utf8_text(body) {
        None => Err(ResponseError::NotUtf8),
        Some(text) => {
            assert(decode_utf8(body@) == text@) by {
                assert(decode_utf8(encode_utf8(text@)) == text@);
            }
            match Document::parse(text) {
                Err(_) => Err(ResponseError::NotJson),
                Ok(response) => summarize(&response),
            }
        },
    }
}

} // verus!
