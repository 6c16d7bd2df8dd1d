//! What a handler or a stage answers with: a status and a structured body.
//! Turning a body into bytes is left to the caller.

use vstd::prelude::*;
use vstd::string::StringExecFns;
use crate::domain::diary_record::{views_of, DiaryRecord, RecordView};
use crate::errors::{ApiError, ApiErrorView, FailureView, ValidationError};
use crate::routes::health_check::{HealthCheckResponse, HealthView};
use crate::routes::info::{InfoResponse, InfoView};
use crate::routes::not_found::{NotFoundResponse, NotFoundView};
use crate::text::{chars_of, holds_text, occurs_in};

verus! {

/// The body of a response.
#[derive(Clone, Debug, PartialEq, Eq)]
pub enum Body {
    /// Nothing at all.
    Empty,
    /// One line of text, sent as a JSON string.
    Message(String),
    /// Diary entries, sent as a JSON array.
    Entries(Vec<DiaryRecord>),
    /// The field and the reason of a validation error.
    Invalid(ValidationError),
    /// The description of the API.
    Info(InfoResponse),
    /// The health report.
    Health(HealthCheckResponse),
    /// The notice for a path that no route matches.
    NotFound(NotFoundResponse),
}

/// A `Body` as a mathematical value.
pub enum BodyView {
    Empty,
    Message(Seq<char>),
    Entries(Seq<RecordView>),
    Invalid(ValidationError),
    Info(InfoView),
    Health(HealthView),
    NotFound(NotFoundView),
}

impl View for Body {
    type V = BodyView;

    open spec fn view(&self) -> BodyView {
        match *self {
            Body::Empty => BodyView::Empty,
            Body::Message(text) => BodyView::Message(text@),
            Body::Entries(entries) => BodyView::Entries(views_of(entries@)),
            Body::Invalid(error) => BodyView::Invalid(error),
            Body::Info(info) => BodyView::Info(info@),
            Body::Health(health) => BodyView::Health(health@),
            Body::NotFound(notice) => BodyView::NotFound(notice@),
        }
    }
}

/// The texts of `secrets` as mathematical values, in the same order.
pub open spec fn texts_of(secrets: Seq<String>) -> Seq<Seq<char>> {
    secrets.map_values(|secret: String| secret@)
}

/// Whether one of `secrets` stands somewhere in `text`. An empty secret is
/// none: it would stand in every text.
pub open spec fn leaks(text: Seq<char>, secrets: Seq<Seq<char>>) -> bool {
    exists|i: int|
        0 <= i < secrets.len() && (#[trigger] secrets[i]).len() > 0 && occurs_in(secrets[i], text)
}

/// Whether one of `secrets` stands somewhere in `text`.
pub fn leaks_any(text: &str, secrets: &Vec<String>) -> (yes: bool)
    ensures
        yes == leaks(text@, texts_of(secrets@)),
{
    let chars = chars_of(text);
    let mut i: usize = 0;
    while i < secrets.len()
        invariant
            i <= secrets.len(),
            chars@ == text@,
            forall|j: int|
                0 <= j < i ==> !((#[trigger] texts_of(secrets@)[j]).len() > 0 && occurs_in(
                    texts_of(secrets@)[j],
                    text@,
                )),
        decreases secrets.len() - i,
    {
        let secret = chars_of(secrets[i].as_str());
        assert(secret@ == texts_of(secrets@)[i as int]);
        if secret.len() > 0 && holds_text(&chars, &secret) {
            return true;
        }
        i += 1;
    }
    false
}

impl BodyView {
    /// Whether the body is a line of text in which one of `secrets` stands.
    pub open spec fn discloses(self, secrets: Seq<Seq<char>>) -> bool {
        self matches BodyView::Message(text) && leaks(text, secrets)
    }
}

/// A status and a body.
#[derive(Clone, Debug, PartialEq, Eq)]
pub struct Response {
    pub status: u16,
    pub body: Body,
}

/// A `Response` as a mathematical value.
pub struct ResponseView {
    pub status: u16,
    pub body: BodyView,
}

impl View for Response {
    type V = ResponseView;

    open spec fn view(&self) -> ResponseView {
        ResponseView { status: self.status, body: self.body@ }
    }
}

/// The text sent for an entry that does not exist.
pub open spec fn missing_entry_text() -> Seq<char> {
    "Diary item not found..."@
}

/// The text sent when the rate limiter has no token left.
pub open spec fn throttled_text() -> Seq<char> {
    "Too many requests..."@
}

impl ResponseView {
    /// The response as it may go out to a client who must not learn
    /// `secrets`: a line of text in which one of them stands is taken out
    /// whole, and the status goes out with no body; any other response goes
    /// out as it is.
    pub open spec fn withheld(self, secrets: Seq<Seq<char>>) -> ResponseView {
        if self.body.discloses(secrets) {
            ResponseView { status: self.status, body: BodyView::Empty }
        } else {
            self
        }
    }

    /// Success with one line of text.
    pub open spec fn ok(text: Seq<char>) -> ResponseView {
        ResponseView { status: 200, body: BodyView::Message(text) }
    }

    /// The answer to a failure: the status of the failure and a body that
    /// says what the client can act on. A missing or wrong credential is
    /// answered with no body at all, the same for every such request; a
    /// failure of the backing store with one fixed line, whatever the store
    /// reported.
    pub open spec fn failure(error: ApiErrorView) -> ResponseView {
        ResponseView {
            status: error.status(),
            body: match error {
                ApiErrorView::ValidationError(invalid) => BodyView::Invalid(invalid),
                ApiErrorView::NotFound => BodyView::Message(missing_entry_text()),
                ApiErrorView::Unauthorized => BodyView::Empty,
                ApiErrorView::RateLimited => BodyView::Message(throttled_text()),
                ApiErrorView::PersistenceError(failure) => BodyView::Message(failure.message()),
            },
        }
    }
}

impl Response {
    /// Takes out of the response a line of text in which one of `secrets`
    /// stands. What comes back holds none of them.
    pub fn withhold(self, secrets: &Vec<String>) -> (response: Response)
        ensures
            response@ == self@.withheld(texts_of(secrets@)),
            !response@.body.discloses(texts_of(secrets@)),
    {
        let disclosed = match &self.body {
            Body::Message(text) => leaks_any(text.as_str(), secrets),
            _ => false,
        };
        if disclosed {
            Response { status: self.status, body: Body::Empty }
        } else {
            self
        }
    }

    /// Success with one line of text.
    pub fn ok(text: &str) -> (response: Response)
        ensures
            response@ == ResponseView::ok(text@),
    {
        Response { status: 200, body: Body::Message(String::from_str(text)) }
    }

    /// The answer to a failure.
    pub fn failure(error: &ApiError) -> (response: Response)
        ensures
            response@ == ResponseView::failure(error@),
    {
        let body = match error {
            ApiError::ValidationError(invalid) => Body::Invalid(*invalid),
            ApiError::NotFound => Body::Message(String::from_str("Diary item not found...")),
            ApiError::Unauthorized => Body::Empty,
            ApiError::RateLimited => Body::Message(String::from_str("Too many requests...")),
            ApiError::PersistenceError(failure) => Body::Message(failure.message()),
        };
        Response { status: error.status(), body }
    }
}

/// What goes out holds no secret: after `withheld`, no secret that is not
/// empty stands in the line of the body, whatever the response was.
pub proof fn withheld_discloses_nothing(response: ResponseView, secrets: Seq<Seq<char>>)
    ensures
        !response.withheld(secrets).body.discloses(secrets),
        response.withheld(secrets).status == response.status,
        forall|i: int|
            0 <= i < secrets.len() && (#[trigger] secrets[i]).len() > 0 ==> !(response.withheld(
                secrets,
            ).body matches BodyView::Message(text) && occurs_in(secrets[i], text)),
{
    assert forall|i: int| 0 <= i < secrets.len() && (#[trigger] secrets[i]).len() > 0 implies !(
    response.withheld(secrets).body matches BodyView::Message(text) && occurs_in(
        secrets[i],
        text,
    )) by {
        match response.withheld(secrets).body {
            BodyView::Message(text) => {
                if occurs_in(secrets[i], text) {
                    assert(leaks(text, secrets));
                }
            },
            _ => {},
        }
    }
}

/// The answer to a failure of the backing store does not depend on what
/// the store reported: any two reports are answered alike.
pub proof fn backend_report_stays_inside(
    first: Seq<char>,
    second: Seq<char>,
    secrets: Seq<Seq<char>>,
)
    ensures
        ResponseView::failure(ApiErrorView::PersistenceError(FailureView::Backend(first)))
            == ResponseView::failure(ApiErrorView::PersistenceError(FailureView::Backend(second))),
        ResponseView::failure(
            ApiErrorView::PersistenceError(FailureView::Backend(first)),
        ).withheld(secrets) == ResponseView::failure(
            ApiErrorView::PersistenceError(FailureView::Backend(second)),
        ).withheld(secrets),
{
}

} // verus!
