//! A request as the pipeline sees it: plain values, taken off the wire by
//! the caller.

use vstd::prelude::*;

verus! {

/// The method of a request.
#[derive(Clone, Copy, Debug, PartialEq, Eq, Structural)]
pub enum Method {
    Get,
    Post,
    Put,
    Delete,
    /// Any other method; no route takes it.
    Other,
}

/// What the stages read of a request.
#[derive(Clone, Debug, PartialEq, Eq)]
pub struct Request {
    pub method: Method,
    pub path: String,
    /// The value of the `x-api-key` header, where the request has one.
    pub x_api_key: Option<String>,
    /// The value of the `Origin` header, where the request has one.
    pub origin: Option<String>,
}

/// An optional text as a mathematical value.
pub open spec fn text_view(text: Option<String>) -> Option<Seq<char>> {
    match text {
        Some(text) => Some(text@),
        None => None,
    }
}

} // verus!
