//! The authentication guard: a request passes only with the configured key.

use vstd::prelude::*;
use vstd::utf8::{decode_utf8, encode_utf8, encode_utf8_decode_utf8};
use crate::domain::appstate::AppState;
use crate::errors::{ApiError, ApiErrorView};
use crate::response::{BodyView, Response, ResponseView};
use crate::text::constant_time_eq;

verus! {

/// The name of the header that carries the credential.
pub open spec fn credential_header() -> Seq<char> {
    "x-api-key"@
}

/// The name of the header that carries the credential.
pub fn header_name() -> (name: &'static str)
    ensures
        name@ == credential_header(),
{
    "x-api-key"
}

/// Whether the credential a request presented is the configured secret:
/// it has to be there and to be equal to it, character for character.
pub open spec fn credential_ok(secret: Seq<char>, presented: Option<Seq<char>>) -> bool {
    presented == Some(secret)
}

/// The credential of a request as a mathematical value.
pub open spec fn presented_view(presented: Option<&str>) -> Option<Seq<char>> {
    match presented {
        Some(text) => Some(text@),
        None => None,
    }
}

/// Two texts with the same UTF-8 encoding are the same text.
pub proof fn encoding_is_injective(left: Seq<char>, right: Seq<char>)
    requires
        encode_utf8(left) == encode_utf8(right),
    ensures
        left == right,
{
    encode_utf8_decode_utf8(left);
    encode_utf8_decode_utf8(right);
    assert(decode_utf8(encode_utf8(left)) == left);
    assert(decode_utf8(encode_utf8(right)) == right);
}

/// Compares the presented credential with the secret. The comparison runs
/// over the whole secret whatever was presented: a missing credential, a
/// wrong one and one of another length all take the same work.
pub fn credential_matches(secret: &str, presented: Option<&str>) -> (matches: bool)
    ensures
        matches == credential_ok(secret@, presented_view(presented)),
{
    let (probe, given) = match presented {
        Some(text) => (text, true),
        None => ("", false),
    };
    let same = constant_time_eq(secret.as_bytes(), probe.as_bytes());
    proof {
        if same {
            encoding_is_injective(secret@, probe@);
        }
    }
    same && given
}

/// The one answer to every request that fails the guard: status 401 and no
/// body. It is the same whatever the secret is and whatever was presented,
/// so it tells nothing of either.
pub open spec fn unauthorized() -> ResponseView {
    ResponseView { status: 401, body: BodyView::Empty }
}

/// The guard before it is put in front of a service.
#[derive(Clone, Copy, Debug)]
pub struct ApiKey;

/// The guard in front of its service.
pub struct ApiKeyMiddleware<S> {
    service: S,
}

impl ApiKey {
    /// Puts the guard in front of `service`.
    pub fn new_transform<S>(&self, service: S) -> (guard: ApiKeyMiddleware<S>)
        ensures
            guard.guarded() == service,
    {
        ApiKeyMiddleware { service }
    }
}

impl<S> ApiKeyMiddleware<S> {
    /// The service behind the guard.
    pub closed spec fn guarded(&self) -> S {
        self.service
    }

    /// Decides on one request from the credential it carries in the
    /// `x-api-key` header, if any. With the configured key the request is
    /// let through: the answer is the guarded service, which the caller then
    /// calls. Without the header, or with any other value, the answer is
    /// the 401 response and the service is not to be called.
    pub fn call(
        &self,
        state: &AppState,
        x_api_key: Option<&str>,
    ) -> (decision: Result<&S, Response>)
        ensures
            match decision {
                Ok(service) => credential_ok(state.api_key@, presented_view(x_api_key))
                    && *service == self.guarded(),
                Err(response) => !credential_ok(state.api_key@, presented_view(x_api_key))
                    && response@ == unauthorized(),
            },
    {
        if credential_matches(state.api_key.as_str(), x_api_key) {
            Ok(&self.service)
        } else {
            Err(Response::failure(&ApiError::Unauthorized))
        }
    }
}

/// A request without the credential, or with a wrong one, never passes the
/// guard, and the answer it gets holds no text at all: no part of the secret
/// can be in it.
pub proof fn rejection_tells_nothing(secret: Seq<char>, presented: Option<Seq<char>>)
    requires
        presented is None || presented != Some(secret),
    ensures
        !credential_ok(secret, presented),
        unauthorized().status == 401,
        unauthorized().body is Empty,
        ResponseView::failure(ApiErrorView::Unauthorized) == unauthorized(),
{
}

} // verus!
