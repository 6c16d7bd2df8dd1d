//! The ways a request can fail, and the status each failure is answered with.

use vstd::prelude::*;
use vstd::string::StringExecFns;

verus! {

/// The input a validation error is about.
#[derive(Clone, Copy, Debug, PartialEq, Eq, Structural)]
pub enum Field {
    Id,
    Band,
    Album,
    Thoughts,
}

/// Why an input was turned down.
#[derive(Clone, Copy, Debug, PartialEq, Eq, Structural)]
pub enum Reason {
    /// The text is empty.
    Empty,
    /// The text holds something other than letters and digits.
    NotAlphanumeric,
    /// The text is not a UUID.
    MalformedId,
}

/// A client input that breaks a field's rule.
#[derive(Clone, Copy, Debug, PartialEq, Eq, Structural)]
pub struct ValidationError {
    pub field: Field,
    pub reason: Reason,
}

/// Why the store could not carry out a write.
#[derive(Clone, Debug, PartialEq, Eq)]
pub enum Failure {
    /// The identifier was given out before: the unique key refuses it.
    DuplicateId,
    /// The write is stamped earlier than the entry's last write.
    StaleTimestamp,
    /// The backing store failed. The text is its own report: it is kept for
    /// the log and never sent to a client.
    Backend(String),
}

/// A `Failure` as a mathematical value.
pub enum FailureView {
    DuplicateId,
    StaleTimestamp,
    Backend(Seq<char>),
}

impl View for Failure {
    type V = FailureView;

    open spec fn view(&self) -> FailureView {
        match *self {
            Failure::DuplicateId => FailureView::DuplicateId,
            Failure::StaleTimestamp => FailureView::StaleTimestamp,
            Failure::Backend(text) => FailureView::Backend(text@),
        }
    }
}

impl FailureView {
    /// The line a client is told of the failure. For a failure of the
    /// backing store it is one fixed line, whatever the store reported.
    pub open spec fn message(self) -> Seq<char> {
        match self {
            FailureView::DuplicateId => "duplicate key value violates unique constraint"@,
            FailureView::StaleTimestamp => "update is older than the entry"@,
            FailureView::Backend(_) => "the store could not carry out the request"@,
        }
    }

    /// The line for the log: the backing store's own report where there is
    /// one, else the line a client is told.
    pub open spec fn detail(self) -> Seq<char> {
        match self {
            FailureView::Backend(text) => text,
            _ => self.message(),
        }
    }
}

impl Failure {
    /// The line a client is told of the failure. What the backing store
    /// reported is no part of it.
    pub fn message(&self) -> (text: String)
        ensures
            text@ == self@.message(),
    {
        match self {
            Failure::DuplicateId => String::from_str(
                "duplicate key value violates unique constraint",
            ),
            Failure::StaleTimestamp => String::from_str("update is older than the entry"),
            Failure::Backend(_) => String::from_str("the store could not carry out the request"),
        }
    }

    /// The line for the log. It may hold whatever the backing store put in
    /// its report, so it is not for a response.
    pub fn detail(&self) -> (text: String)
        ensures
            text@ == self@.detail(),
    {
        match self {
            Failure::Backend(text) => text.clone(),
            _ => self.message(),
        }
    }
}

/// Every way a request can fail.
#[derive(Clone, Debug, PartialEq, Eq)]
pub enum ApiError {
    /// A client input is malformed.
    ValidationError(ValidationError),
    /// The entry that was named does not exist.
    NotFound,
    /// The credential is missing or wrong.
    Unauthorized,
    /// The rate limiter has no token left.
    RateLimited,
    /// The store failed.
    PersistenceError(Failure),
}

/// An `ApiError` as a mathematical value.
pub enum ApiErrorView {
    ValidationError(ValidationError),
    NotFound,
    Unauthorized,
    RateLimited,
    PersistenceError(FailureView),
}

impl View for ApiError {
    type V = ApiErrorView;

    open spec fn view(&self) -> ApiErrorView {
        match *self {
            ApiError::ValidationError(error) => ApiErrorView::ValidationError(error),
            ApiError::NotFound => ApiErrorView::NotFound,
            ApiError::Unauthorized => ApiErrorView::Unauthorized,
            ApiError::RateLimited => ApiErrorView::RateLimited,
            ApiError::PersistenceError(failure) => ApiErrorView::PersistenceError(failure@),
        }
    }
}

impl ApiErrorView {
    /// The HTTP status a failure is answered with. A missing entry is a
    /// failed write and is answered like one, with its own message.
    pub open spec fn status(self) -> u16 {
        match self {
            ApiErrorView::ValidationError(_) => 400,
            ApiErrorView::NotFound => 500,
            ApiErrorView::Unauthorized => 401,
            ApiErrorView::RateLimited => 429,
            ApiErrorView::PersistenceError(_) => 500,
        }
    }
}

impl ApiError {
    /// The HTTP status the failure is answered with.
    pub fn status(&self) -> (code: u16)
        ensures
            code == self@.status(),
    {
        match self {
            ApiError::ValidationError(_) => 400,
            ApiError::NotFound => 500,
            ApiError::Unauthorized => 401,
            ApiError::RateLimited => 429,
            ApiError::PersistenceError(_) => 500,
        }
    }
}

} // verus!
