//! What a reply amounts to, before any step looks at it.

use vstd::prelude::*;
use crate::http::{is_success, is_success_code, Reply, ReplyView};
use crate::json::{json_parse, parse, parsed_view, Json, JsonView};

verus! {

/// A reply, sorted by how far it got.
#[derive(Debug, PartialEq, Eq)]
pub enum Reading {
    /// There is no answer; `reason` says why.
    Unreachable { reason: String },
    /// The provider answered with a status outside 2xx.
    Refused { body: String },
    /// The provider answered with a status in 2xx, and the body is not JSON; `fault` is
    /// what the JSON reader says of it.
    Garbled { fault: String, body: String },
    /// The provider answered with a status in 2xx and a JSON document.
    Document { doc: Json, body: String },
}

pub enum ReadingView {
    Unreachable { reason: Seq<char> },
    Refused { body: Seq<char> },
    Garbled { fault: Seq<char>, body: Seq<char> },
    Document { doc: JsonView, body: Seq<char> },
}

impl View for Reading {
    type V = ReadingView;

    open spec fn view(&self) -> ReadingView {
        match self {
            Reading::Unreachable { reason } => ReadingView::Unreachable { reason: reason@ },
            Reading::Refused { body } => ReadingView::Refused { body: body@ },
            Reading::Garbled { fault, body } => ReadingView::Garbled { fault: fault@, body: body@ },
            Reading::Document { doc, body } => ReadingView::Document { doc: doc@, body: body@ },
        }
    }
}

/// The reading of an answer with the given status and body, where `parsed` is what the
/// JSON reader made of the body.
///
/// The status decides first: outside 2xx the body is not looked at.
pub open spec fn reading_with(
    status: u16,
    body: Seq<char>,
    parsed: Result<JsonView, Seq<char>>,
) -> ReadingView {
    if !is_success_code(status) {
        ReadingView::Refused { body }
    } else {
        match parsed {
            Ok(doc) => ReadingView::Document { doc, body },
            Err(fault) => ReadingView::Garbled { fault, body },
        }
    }
}

/// The reading of a reply.
pub open spec fn reading_of(reply: ReplyView) -> ReadingView {
    match reply {
        ReplyView::Failure(reason) => ReadingView::Unreachable { reason },
        ReplyView::Response { status, body } => reading_with(status, body, json_parse(body)),
    }
}

/// Sorts an answer, given what the JSON reader made of its body.
pub fn classify(status: u16, body: String, parsed: Result<Json, String>) -> (reading: Reading)
    ensures
        reading@ == reading_with(status, body@, parsed_view(parsed)),
{
    if !is_success(status) {
        Reading::Refused { body }
    } else {
        match parsed {
            Ok(doc) => Reading::Document { doc, body },
            Err(fault) => Reading::Garbled { fault, body },
        }
    }
}

/// Sorts a reply. The body is handed to the JSON reader only where the status is in 2xx.
pub fn read_reply(reply: Reply) -> (reading: Reading)
    ensures
        reading@ == reading_of(reply@),
{
    match reply {
        Reply::Failure(reason) => Reading::Unreachable { reason },
        Reply::Response { status, body } => {
            if is_success(status) {
                let parsed = parse(body.as_str());
                classify(status, body, parsed)
            } else {
                Reading::Refused { body }
            }
        },
    }
}

} // verus!
