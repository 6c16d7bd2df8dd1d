//! The health endpoint: a fixed report, no state behind it.

use vstd::prelude::*;
use vstd::string::StringExecFns;
use crate::response::{Body, BodyView, Response, ResponseView};

verus! {

/// The health report.
#[derive(Clone, Debug, PartialEq, Eq)]
pub struct HealthCheckResponse {
    pub code: u8,
    pub message: String,
}

/// A `HealthCheckResponse` as a mathematical value.
pub struct HealthView {
    pub code: u8,
    pub message: Seq<char>,
}

impl View for HealthCheckResponse {
    type V = HealthView;

    open spec fn view(&self) -> HealthView {
        HealthView { code: self.code, message: self.message@ }
    }
}

/// The answer of the health endpoint.
pub open spec fn health_report() -> ResponseView {
    ResponseView {
        status: 200,
        body: BodyView::Health(HealthView { code: 200, message: "Ok"@ }),
    }
}

/// Answers the health endpoint: status 200 and the report `200`, `Ok`.
pub fn health_check() -> (response: Response)
    ensures
        response@ == health_report(),
{
    let health_check_response = HealthCheckResponse { code: 200, message: String::from_str("Ok") };
    Response { status: 200, body: Body::Health(health_check_response) }
}

} // verus!
