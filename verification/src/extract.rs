//! The record extractor: from one input record to the request that upserts it.
//!
//! A record names its document in one of two ways. Under the embedded-id
//! convention the record is the document, and its `id` member, which is taken out
//! before sending, says where it goes. Under the split-envelope convention the
//! record wraps the document: `_id` says where it goes and `_source` is what is
//! sent.

use vstd::prelude::*;
use vstd::string::*;
use crate::address::{address, characters, BaseUrl};
use crate::document::{string_under, Document, NotJson};
use crate::json::{json_parse, json_text, member, member_or_null, without, Json};

verus! {

/// How a record names its document.
#[derive(Clone, Copy, Debug, PartialEq, Eq, Structural)]
pub enum Convention {
    EmbeddedId,
    SplitEnvelope,
}

/// The HTTP method of a request.
#[derive(Clone, Copy, Debug, PartialEq, Eq, Structural)]
pub enum Verb {
    /// Replace or create the document at a known address.
    Put,
    /// Create a document and let the store choose its address.
    Post,
}

/// The header that every request carries.
pub const CONTENT_TYPE: &'static str = "Content-Type: application/json";

/// One request to the store: the unit of work that a record becomes.
#[derive(Debug, PartialEq, Eq)]
pub struct Request {
    pub verb: Verb,
    /// The address to send to.
    pub target: String,
    /// The one header line to send along.
    pub header: &'static str,
    /// The payload, as compact JSON.
    pub body: String,
}

/// A request, by the characters of its texts.
pub struct RequestView {
    pub verb: Verb,
    pub target: Seq<char>,
    pub header: Seq<char>,
    pub body: Seq<char>,
}

impl View for Request {
    type V = RequestView;

    open spec fn view(&self) -> RequestView {
        RequestView {
            verb: self.verb,
            target: self.target@,
            header: self.header@,
            body: self.body@,
        }
    }
}

/// The key under which a record carries its identifier.
pub open spec fn identifier_key(convention: Convention) -> Seq<char> {
    match convention {
        Convention::EmbeddedId => "id"@,
        Convention::SplitEnvelope => "_id"@,
    }
}

/// The key under which an envelope carries the document.
pub const BODY_KEY: &'static str = "_source";

/// Which identifier counts, given the string found under the identifier key, if
/// one was found: an envelope's empty identifier counts as none.
pub open spec fn accepted(convention: Convention, found: Option<Seq<char>>) -> Option<Seq<char>> {
    match found {
        Some(id) => if convention == Convention::SplitEnvelope && id.len() == 0 {
            None
        } else {
            Some(id)
        },
        None => None,
    }
}

/// The verb for a record with this identifier: always `Put` for an embedded id;
/// for an envelope, `Put` with an identifier and `Post` without.
pub open spec fn verb_for(convention: Convention, identifier: Option<Seq<char>>) -> Verb {
    match convention {
        Convention::EmbeddedId => Verb::Put,
        Convention::SplitEnvelope => if identifier is Some {
            Verb::Put
        } else {
            Verb::Post
        },
    }
}

/// The identifier of a record. A member under the identifier key that is no
/// string counts as missing.
pub open spec fn identifier(convention: Convention, record: Json) -> Option<Seq<char>> {
    accepted(convention, string_under(record, identifier_key(convention)))
}

/// What is sent for a record: the record without its `id` member, or the
/// envelope's `_source` member (`null` where the envelope has none).
pub open spec fn payload(convention: Convention, record: Json) -> Json {
    match convention {
        Convention::EmbeddedId => without(record, identifier_key(convention)),
        Convention::SplitEnvelope => member_or_null(record, BODY_KEY@),
    }
}

/// The request that upserts `record` below `base`.
pub open spec fn request_for(convention: Convention, base: Seq<char>, record: Json) -> RequestView {
    RequestView {
        verb: verb_for(convention, identifier(convention, record)),
        target: address(base, identifier(convention, record)),
        header: CONTENT_TYPE@,
        body: json_text(payload(convention, record)),
    }
}

/// The request for one line of input, where the line is JSON.
pub open spec fn request_for_line(convention: Convention, base: Seq<char>, line: Seq<char>) -> Option<
    RequestView,
> {
    match json_parse(line) {
        Some(record) => Some(request_for(convention, base, record)),
        None => None,
    }
}

impl Convention {
    /// The key under which a record carries its identifier.
    pub fn identifier_key(self) -> (key: &'static str)
        ensures
            key@ == identifier_key(self),
    {
        match self {
            Convention::EmbeddedId => "id",
            Convention::SplitEnvelope => "_id",
        }
    }
}

impl Verb {
    /// The name of the method on the wire.
    pub fn name(self) -> (name: &'static str)
        ensures
            name@ == (match self {
                Verb::Put => "PUT"@,
                Verb::Post => "POST"@,
            }),
    {
        match self {
            Verb::Put => "PUT",
            Verb::Post => "POST",
        }
    }
}

/// Decides verb and address from the string found under the identifier key, if
/// one was found.
pub fn dispatch(convention: Convention, base: &BaseUrl, found: Option<&str>) -> (route: (
    Verb,
    String,
))
    ensures
        route.0 == verb_for(convention, accepted(convention, characters(found))),
        route.1@ == address(base@, accepted(convention, characters(found))),
{
    let identifier: Option<&str> = match found {
        Some(id) => {
            if convention == Convention::SplitEnvelope && id.is_empty() {
                None
            } else {
                Some(id)
            }
        },
        None => None,
    };
    let verb = match convention {
        Convention::EmbeddedId => Verb::Put,
        Convention::SplitEnvelope => {
            if identifier.is_some() {
                Verb::Put
            } else {
                Verb::Post
            }
        },
    };
    (verb, base.address(identifier))
}

/// Turns a parsed record into the request that upserts it.
pub fn extract(convention: Convention, base: &BaseUrl, record: Document) -> (request: Request)
    ensures
        request@ == request_for(convention, base@, record@),
{
    let found = record.string_member(convention.identifier_key());
    let (verb, target) = match &found {
        Some(id) => dispatch(convention, base, Some(id.as_str())),
        None => dispatch(convention, base, None),
    };
    let body = match convention {
        Convention::EmbeddedId => {
            let mut document = record;
            document.remove(convention.identifier_key());
            document.text()
        },
        Convention::SplitEnvelope => record.member_text_or_null(BODY_KEY),
    };
    Request { verb, target, header: CONTENT_TYPE, body }
}

/// Parses one line of input and turns it into its request. Fails exactly on the
/// lines that are not JSON.
pub fn extract_line(convention: Convention, base: &BaseUrl, line: &str) -> (extracted: Result<
    Request,
    NotJson,
>)
    ensures
        match extracted {
            Ok(request) => request_for_line(convention, base@, line@) == Some(request@),
            Err(_) => request_for_line(convention, base@, line@) is None,
        },
{
    match Document::parse(line) {
        Ok(record) => Ok(extract(convention, base, record)),
        Err(error) => Err(error),
    }
}

/// Under the embedded-id convention a record goes to the base followed by its
/// `id` exactly when it has a string under `id`, and to the base alone otherwise.
/// A record without any `id` member is sent as it is.
pub proof fn embedded_id_decides_the_address(base: Seq<char>, record: Json)
    ensures
        ({
            let found = string_under(record, "id"@);
            let request = request_for(Convention::EmbeddedId, base, record);
            &&& found is Some ==> request.target == base + found->0
            &&& found is None ==> request.target == base
            &&& request.verb == Verb::Put
        }),
        member(record, "id"@) is None ==> payload(Convention::EmbeddedId, record) == record,
{
    if member(record, "id"@) is None {
        match record {
            Json::Object(members) => {
                assert(members.remove("id"@) =~= members);
            },
            _ => {},
        }
    }
}

/// Under the split-envelope convention the verb is `Put` exactly when the envelope
/// has a non-empty string under `_id`, and `Post` otherwise. With `Put` the
/// address is the base followed by that string; with `Post` it is the base.
pub proof fn envelope_identifier_decides_the_verb(base: Seq<char>, record: Json)
    ensures
        ({
            let found = string_under(record, "_id"@);
            let named = found is Some && found->0.len() > 0;
            let request = request_for(Convention::SplitEnvelope, base, record);
            &&& request.verb == Verb::Put <==> named
            &&& request.verb == Verb::Post <==> !named
            &&& named ==> request.target == base + found->0
            &&& !named ==> request.target == base
        }),
{
}

/// Under the embedded-id convention the payload never has an `id` member.
pub proof fn embedded_payload_has_no_identifier(record: Json)
    ensures
        member(payload(Convention::EmbeddedId, record), "id"@) is None,
{
}

} // verus!
