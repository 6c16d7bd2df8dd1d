//! The answer for a path that no route matches.

use vstd::prelude::*;
use vstd::string::StringExecFns;
use crate::response::{Body, BodyView, Response, ResponseView};

verus! {

/// The notice for a path that no route matches.
#[derive(Clone, Debug, PartialEq, Eq)]
pub struct NotFoundResponse {
    pub message: String,
}

/// A `NotFoundResponse` as a mathematical value.
pub struct NotFoundView {
    pub message: Seq<char>,
}

impl View for NotFoundResponse {
    type V = NotFoundView;

    open spec fn view(&self) -> NotFoundView {
        NotFoundView { message: self.message@ }
    }
}

/// The answer for an unmatched path.
pub open spec fn not_found_notice() -> ResponseView {
    ResponseView {
        status: 404,
        body: BodyView::NotFound(NotFoundView { message: "Resource not found"@ }),
    }
}

/// Answers a request that no route matches: status 404 with a message in
/// the body, so that the outcome can be told from a rejection.
pub fn not_found() -> (response: Response)
    ensures
        response@ == not_found_notice(),
{
    let not_found_response = NotFoundResponse { message: String::from_str("Resource not found") };
    Response { status: 404, body: Body::NotFound(not_found_response) }
}

} // verus!
