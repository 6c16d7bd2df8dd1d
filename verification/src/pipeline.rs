//! The request pipeline: the authentication guard, the rate limiter, the
//! cross-origin policy and the router, in that order, and then the handler.
//! A stage that turns a request down ends the run: no later stage sees the
//! request, and no handler is invoked.
//!
//! Two choices are made here, once, for every route. The guard comes before
//! the limiter, so a request without the key is told so whatever the bucket
//! holds and costs no token. And every route stands behind the guard, the
//! info and health routes too.

use vstd::prelude::*;
use crate::domain::appstate::AppState;
use crate::errors::{ApiError, ApiErrorView};
use crate::middleware::auth_key_middleware::{credential_matches, credential_ok};
use crate::middleware::cors::{grant_view, CorsGrant, CorsPolicy, GrantView, PolicyView};
use crate::middleware::rate_limit::{BucketView, TokenBucket};
use crate::request::{text_view, Method, Request};
use crate::response::{texts_of, Response, ResponseView};
use crate::routes::router::{route, route_of, Route, RouteView};
use crate::trusted::utc_now_micros;

verus! {

/// Why a stage turned a request down.
#[derive(Clone, Copy, Debug, PartialEq, Eq, Structural)]
pub enum Rejection {
    /// The credential is missing or wrong.
    Unauthorized,
    /// The rate limiter has no token left.
    RateLimited,
}

impl Rejection {
    /// The failure that the rejection is answered as.
    pub open spec fn error(self) -> ApiErrorView {
        match self {
            Rejection::Unauthorized => ApiErrorView::Unauthorized,
            Rejection::RateLimited => ApiErrorView::RateLimited,
        }
    }

    /// The response to the rejection.
    pub fn response(self) -> (response: Response)
        ensures
            response@ == ResponseView::failure(self.error()),
    {
        match self {
            Rejection::Unauthorized => Response::failure(&ApiError::Unauthorized),
            Rejection::RateLimited => Response::failure(&ApiError::RateLimited),
        }
    }
}

/// Where a request ends: at its handler, at the notice that no route
/// matches, or at a rejection. The first two carry the permission headers
/// that the cross-origin policy granted.
#[derive(Clone, Debug, PartialEq, Eq)]
pub enum Outcome {
    Routed(Route, Option<CorsGrant>),
    NotFound(Option<CorsGrant>),
    Rejected(Rejection),
}

/// An `Outcome` as a mathematical value.
pub enum OutcomeView {
    Routed(RouteView, Option<GrantView>),
    NotFound(Option<GrantView>),
    Rejected(Rejection),
}

impl View for Outcome {
    type V = OutcomeView;

    open spec fn view(&self) -> OutcomeView {
        match *self {
            Outcome::Routed(route, grant) => OutcomeView::Routed(route@, grant_view(grant)),
            Outcome::NotFound(grant) => OutcomeView::NotFound(grant_view(grant)),
            Outcome::Rejected(rejection) => OutcomeView::Rejected(rejection),
        }
    }
}

/// Where a request stands in the pipeline.
#[derive(Clone, Debug, PartialEq, Eq)]
pub enum Stage {
    Received,
    Authenticated,
    Admitted,
    CorsEvaluated(Option<CorsGrant>),
    Done(Outcome),
}

/// A `Stage` as a mathematical value.
pub enum StageView {
    Received,
    Authenticated,
    Admitted,
    CorsEvaluated(Option<GrantView>),
    Done(OutcomeView),
}

impl View for Stage {
    type V = StageView;

    open spec fn view(&self) -> StageView {
        match *self {
            Stage::Received => StageView::Received,
            Stage::Authenticated => StageView::Authenticated,
            Stage::Admitted => StageView::Admitted,
            Stage::CorsEvaluated(grant) => StageView::CorsEvaluated(grant_view(grant)),
            Stage::Done(outcome) => StageView::Done(outcome@),
        }
    }
}

impl StageView {
    /// How many stages are still ahead.
    pub open spec fn remaining(self) -> nat {
        match self {
            StageView::Received => 4,
            StageView::Authenticated => 3,
            StageView::Admitted => 2,
            StageView::CorsEvaluated(_) => 1,
            StageView::Done(_) => 0,
        }
    }
}

/// What the stages read: the configuration and one request, as
/// mathematical values.
pub struct Scene {
    pub secret: Seq<char>,
    pub policy: PolicyView,
    pub method: Method,
    pub path: Seq<char>,
    pub presented: Option<Seq<char>>,
    pub origin: Option<Seq<char>>,
    pub now: int,
}

/// A stage and the rate limiter's bucket as one stage leaves them.
pub struct Progress {
    pub stage: StageView,
    pub bucket: BucketView,
}

/// The end of a run and the bucket as the run leaves it.
pub struct Ended {
    pub outcome: OutcomeView,
    pub bucket: BucketView,
}

/// One stage of the pipeline. The guard lets the request on or rejects it;
/// the limiter takes a token or rejects it; the cross-origin policy decides
/// on the permission headers and never rejects; the router finds the handler
/// or none. Only the limiter touches the bucket, and a run that is done
/// stays as it is.
pub open spec fn advance(scene: Scene, stage: StageView, bucket: BucketView) -> Progress {
    match stage {
        StageView::Received => if credential_ok(scene.secret, scene.presented) {
            Progress { stage: StageView::Authenticated, bucket }
        } else {
            Progress { stage: StageView::Done(OutcomeView::Rejected(Rejection::Unauthorized)), bucket }
        },
        StageView::Authenticated => Progress {
            stage: if bucket.admits(scene.now) {
                StageView::Admitted
            } else {
                StageView::Done(OutcomeView::Rejected(Rejection::RateLimited))
            },
            bucket: bucket.after(scene.now),
        },
        StageView::Admitted => Progress {
            stage: StageView::CorsEvaluated(scene.policy.grant(scene.origin)),
            bucket,
        },
        StageView::CorsEvaluated(grant) => Progress {
            stage: StageView::Done(
                match route_of(scene.method, scene.path) {
                    Some(route) => OutcomeView::Routed(route, grant),
                    None => OutcomeView::NotFound(grant),
                },
            ),
            bucket,
        },
        StageView::Done(_) => Progress { stage, bucket },
    }
}

/// The run from `stage` to the end: stage after stage until one is done.
pub open spec fn run_from(scene: Scene, stage: StageView, bucket: BucketView) -> Ended
    decreases stage.remaining(),
{
    match stage {
        StageView::Done(outcome) => Ended { outcome, bucket },
        _ => {
            let next = advance(scene, stage, bucket);
            run_from(scene, next.stage, next.bucket)
        },
    }
}

/// Where a request ends and how it leaves the bucket, said at once: without
/// the right credential it is rejected and the bucket is not touched; with
/// it, the limiter takes a token or rejects the request; a request that
/// passed both gets its permission headers and its route, or the notice
/// that there is none.
pub open spec fn screened(scene: Scene, bucket: BucketView) -> Ended {
    if !credential_ok(scene.secret, scene.presented) {
        Ended { outcome: OutcomeView::Rejected(Rejection::Unauthorized), bucket }
    } else if !bucket.admits(scene.now) {
        Ended {
            outcome: OutcomeView::Rejected(Rejection::RateLimited),
            bucket: bucket.after(scene.now),
        }
    } else {
        Ended {
            outcome: match route_of(scene.method, scene.path) {
                Some(route) => OutcomeView::Routed(route, scene.policy.grant(scene.origin)),
                None => OutcomeView::NotFound(scene.policy.grant(scene.origin)),
            },
            bucket: bucket.after(scene.now),
        }
    }
}

/// Running the stages one by one comes to what `screened` says at once.
pub proof fn run_is_screened(scene: Scene, bucket: BucketView)
    ensures
        run_from(scene, StageView::Received, bucket) == screened(scene, bucket),
{
    reveal_with_fuel(run_from, 5);
}

/// The pipeline: the configured key, the shared token bucket and the
/// cross-origin policy, built once and then handed every request.
#[derive(Clone, Debug)]
pub struct Pipeline {
    state: AppState,
    limiter: TokenBucket,
    cors: CorsPolicy,
}

impl Pipeline {
    /// The configured key.
    pub closed spec fn secret(&self) -> Seq<char> {
        self.state.api_key@
    }

    /// The token bucket.
    pub closed spec fn bucket(&self) -> BucketView {
        self.limiter@
    }

    /// The cross-origin policy.
    pub closed spec fn policy(&self) -> PolicyView {
        self.cors@
    }

    /// The bucket is well-formed.
    pub open spec fn wf(&self) -> bool {
        self.bucket().wf()
    }

    /// What the stages read when `request` comes in at `now`.
    pub open spec fn scene(&self, request: Request, now: int) -> Scene {
        Scene {
            secret: self.secret(),
            policy: self.policy(),
            method: request.method,
            path: request.path@,
            presented: text_view(request.x_api_key),
            origin: text_view(request.origin),
            now,
        }
    }

    /// What no response may tell: the configured key.
    pub fn secrets(&self) -> (secrets: Vec<String>)
        ensures
            texts_of(secrets@) == seq![self.secret()],
    {
        let mut secrets: Vec<String> = Vec::new();
        secrets.push(self.state.api_key.clone());
        assert(texts_of(secrets@) =~= seq![self.secret()]);
        secrets
    }

    /// A pipeline from its three parts.
    pub fn new(state: AppState, limiter: TokenBucket, cors: CorsPolicy) -> (pipeline: Pipeline)
        requires
            limiter@.wf(),
        ensures
            pipeline.wf(),
            pipeline.secret() == state.api_key@,
            pipeline.bucket() == limiter@,
            pipeline.policy() == cors@,
    {
        Pipeline { state, limiter, cors }
    }

    /// Runs one stage on `request`.
    pub fn step(&mut self, stage: Stage, request: &Request, now: i64) -> (next: Stage)
        requires
            old(self).wf(),
        ensures
            final(self).wf(),
            final(self).secret() == old(self).secret(),
            final(self).policy() == old(self).policy(),
            (Progress { stage: next@, bucket: final(self).bucket() }) == advance(
                old(self).scene(*request, now as int),
                stage@,
                old(self).bucket(),
            ),
    {
        match stage {
            Stage::Received => {
                let presented = match &request.x_api_key {
                    Some(text) => Some(text.as_str()),
                    None => None,
                };
                if credential_matches(self.state.api_key.as_str(), presented) {
                    Stage::Authenticated
                } else {
                    Stage::Done(Outcome::Rejected(Rejection::Unauthorized))
                }
            },
            Stage::Authenticated => {
                if self.limiter.try_acquire_at(now) {
                    Stage::Admitted
                } else {
                    Stage::Done(Outcome::Rejected(Rejection::RateLimited))
                }
            },
            Stage::Admitted => {
                let origin = match &request.origin {
                    Some(text) => Some(text.as_str()),
                    None => None,
                };
                Stage::CorsEvaluated(self.cors.evaluate(origin))
            },
            Stage::CorsEvaluated(grant) => {
                match route(request.method, request.path.as_str()) {
                    Some(found) => Stage::Done(Outcome::Routed(found, grant)),
                    None => Stage::Done(Outcome::NotFound(grant)),
                }
            },
            Stage::Done(outcome) => Stage::Done(outcome),
        }
    }

    /// Takes `request`, which comes in at `now`, through the stages and
    /// says where it ends: at its handler, at the notice that no route
    /// matches, or at a rejection.
    pub fn screen_at(&mut self, request: &Request, now: i64) -> (end: Outcome)
        requires
            old(self).wf(),
        ensures
            final(self).wf(),
            final(self).secret() == old(self).secret(),
            final(self).policy() == old(self).policy(),
            (Ended { outcome: end@, bucket: final(self).bucket() }) == screened(
                old(self).scene(*request, now as int),
                old(self).bucket(),
            ),
    {
        let ghost scene = self.scene(*request, now as int);
        let ghost start = self.bucket();
        proof {
            run_is_screened(scene, start);
        }
        let mut stage = Stage::Received;
        loop
            invariant
                self.wf(),
                self.secret() == old(self).secret(),
                self.policy() == old(self).policy(),
                scene == old(self).scene(*request, now as int),
                start == old(self).bucket(),
                run_from(scene, stage@, self.bucket()) == screened(scene, start),
            decreases stage@.remaining(),
        {
            match stage {
                Stage::Done(end) => {
                    return end;
                },
                pending => {
                    stage = self.step(pending, request, now);
                },
            }
        }
    }

    /// Takes `request` through the stages as of now, by the system's clock.
    /// Whatever the clock says: without the right credential the request is
    /// rejected and the bucket is left alone; otherwise the end is the one
    /// that `screened` gives for the time that the bucket took as the
    /// request's.
    pub fn screen(&mut self, request: &Request) -> (end: Outcome)
        requires
            old(self).wf(),
        ensures
            final(self).wf(),
            final(self).secret() == old(self).secret(),
            final(self).policy() == old(self).policy(),
            !credential_ok(old(self).secret(), text_view(request.x_api_key)) ==> end@
                == OutcomeView::Rejected(Rejection::Unauthorized) && final(self).bucket() == old(
                self,
            ).bucket(),
            credential_ok(old(self).secret(), text_view(request.x_api_key)) ==> (Ended {
                outcome: end@,
                bucket: final(self).bucket(),
            }) == screened(
                old(self).scene(*request, final(self).bucket().last),
                old(self).bucket(),
            ),
    {
        let now = utc_now_micros();
        let ghost before = self.bucket();
        let end = self.screen_at(request, now);
        proof {
            if now as int <= before.last {
                assert(before.refilled(now as int) == before.refilled(before.last));
            }
        }
        end
    }
}

/// Without the configured key no request gets anywhere: whatever its
/// method, its path and its origin, and whatever the bucket holds, it ends
/// rejected as unauthorized, before the limiter and before any handler, and
/// the answer is status 401 with an empty body.
pub proof fn no_key_no_entry(scene: Scene, bucket: BucketView)
    requires
        scene.presented is None || scene.presented != Some(scene.secret),
    ensures
        screened(scene, bucket).outcome == OutcomeView::Rejected(Rejection::Unauthorized),
        screened(scene, bucket).bucket == bucket,
        ResponseView::failure(Rejection::Unauthorized.error()).status == 401,
        ResponseView::failure(Rejection::Unauthorized.error()).body is Empty,
{
}

/// A request gets past the first two stages only with the configured key
/// and a token.
pub proof fn handlers_are_guarded(scene: Scene, bucket: BucketView)
    requires
        !(screened(scene, bucket).outcome is Rejected),
    ensures
        scene.presented == Some(scene.secret),
        bucket.admits(scene.now),
{
}

} // verus!
