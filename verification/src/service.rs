//! The whole service over a store held in memory: a request goes through
//! the pipeline and, where it gets that far, through its handler.

use vstd::prelude::*;
use crate::domain::diary_record::{marked_is_not_nil, random_marks, PatchView, RecordView};
use crate::errors::{ApiError, ApiErrorView, Field};
use crate::middleware::cors::{grant_view, CorsGrant, GrantView};
use crate::middleware::rate_limit::BucketView;
use crate::pipeline::{screened, Outcome, OutcomeView, Pipeline, Scene};
use crate::request::Request;
use crate::response::{texts_of, BodyView, Response, ResponseView};
use crate::routes::diary::{
    acknowledge, decision_view, delete_plan, diary_album_put_at, diary_delete, diary_get,
    diary_post_at, diary_thoughts_put_at, form_verdict, post_plan, update_plan, write_reply,
    FormData, FormView, UpdatedAlbumFormData, UpdatedThoughtsFormData,
};
use crate::routes::health_check::{health_check, health_report};
use crate::routes::info::{api_description, info};
use crate::routes::not_found::{not_found, not_found_notice};
use crate::routes::router::{Route, RouteView};
use crate::statement::{Statement, StatementView};
use crate::store::{executed, DiaryStore};
use crate::trusted::{random_uuid, utc_now_micros, uuid_of_text};
use crate::validation::{id_verdict, text_rule};

verus! {

/// A response together with the table and the retired identifiers as the
/// handler leaves them.
pub struct Handled {
    pub response: ResponseView,
    pub table: Seq<RecordView>,
    pub retired: Set<u128>,
}

/// What carrying out a handler's decision comes to: a refusal is answered
/// and the table is left alone; a statement is executed and what the store
/// reports of it is answered. No line goes out in which one of `secrets`
/// stands.
pub open spec fn carried_out(
    table: Seq<RecordView>,
    retired: Set<u128>,
    decision: Result<StatementView, ApiErrorView>,
    secrets: Seq<Seq<char>>,
) -> Handled {
    match decision {
        Err(error) => Handled {
            response: ResponseView::failure(error).withheld(secrets),
            table,
            retired,
        },
        Ok(statement) => {
            let effect = executed(table, retired, statement);
            Handled {
                response: write_reply(statement.operation(), effect.report, secrets),
                table: effect.table,
                retired: effect.retired,
            }
        },
    }
}

/// What the handler of `route` does with `form`, where a new entry would
/// get the identifier `id` and any write is stamped `now`, for a client who
/// must not learn `secrets`.
pub open spec fn handled(
    route: RouteView,
    form: FormView,
    id: u128,
    now: i64,
    table: Seq<RecordView>,
    retired: Set<u128>,
    secrets: Seq<Seq<char>>,
) -> Handled {
    match route {
        RouteView::Info => Handled {
            response: ResponseView { status: 200, body: BodyView::Info(api_description()) },
            table,
            retired,
        },
        RouteView::HealthCheck => Handled { response: health_report(), table, retired },
        RouteView::DiaryList => Handled {
            response: ResponseView { status: 200, body: BodyView::Entries(table) },
            table,
            retired,
        },
        RouteView::DiaryCreate => carried_out(
            table,
            retired,
            post_plan(
                form_verdict(form.band_content, form.album_content, form.thoughts_content),
                id,
                now,
                form.band_content,
                form.album_content,
                form.thoughts_content,
            ),
            secrets,
        ),
        RouteView::DiaryUpdateAlbum(segment) => carried_out(
            table,
            retired,
            update_plan(
                id_verdict(uuid_of_text(segment)),
                text_rule(Field::Album, form.album_content),
                PatchView::Album(form.album_content),
                now,
            ),
            secrets,
        ),
        RouteView::DiaryUpdateThoughts(segment) => carried_out(
            table,
            retired,
            update_plan(
                id_verdict(uuid_of_text(segment)),
                text_rule(Field::Thoughts, form.thoughts_content),
                PatchView::Thoughts(form.thoughts_content),
                now,
            ),
            secrets,
        ),
        RouteView::DiaryDelete(segment) => carried_out(
            table,
            retired,
            delete_plan(id_verdict(uuid_of_text(segment))),
            secrets,
        ),
    }
}

/// Carries out a handler's decision on `store` and answers; no line goes
/// out in which one of `secrets` stands.
pub fn carry_out(
    store: &mut DiaryStore,
    decision: Result<Statement, ApiError>,
    secrets: &Vec<String>,
) -> (response: Response)
    requires
        old(store).wf(),
    ensures
        final(store).wf(),
        (Handled {
            response: response@,
            table: final(store)@,
            retired: final(store).retired(),
        }) == carried_out(
            old(store)@,
            old(store).retired(),
            decision_view(decision),
            texts_of(secrets@),
        ),
        !response@.body.discloses(texts_of(secrets@)),
{
    match decision {
        Err(error) => Response::failure(&error).withhold(secrets),
        Ok(statement) => {
            let operation = statement.operation();
            let report = store.execute(statement);
            acknowledge(operation, report, secrets)
        },
    }
}

/// Runs the handler of `route` against `store`, with `id` for a new entry
/// and `now` for the stamp of a write; no line goes out in which one of
/// `secrets` stands.
pub fn handle_with(
    store: &mut DiaryStore,
    route: Route,
    form: FormData,
    id: u128,
    now: i64,
    secrets: &Vec<String>,
) -> (response: Response)
    requires
        old(store).wf(),
    ensures
        final(store).wf(),
        (Handled {
            response: response@,
            table: final(store)@,
            retired: final(store).retired(),
        }) == handled(
            route@,
            form@,
            id,
            now,
            old(store)@,
            old(store).retired(),
            texts_of(secrets@),
        ),
{
    match route {
        Route::Info => info(),
        Route::HealthCheck => health_check(),
        Route::DiaryList => diary_get(Ok(store.list_all()), secrets),
        Route::DiaryCreate => {
            let decision = diary_post_at(form, id, now);
            carry_out(store, decision, secrets)
        },
        Route::DiaryUpdateAlbum(segment) => {
            let updated = UpdatedAlbumFormData { album_content: form.album_content };
            let decision = diary_album_put_at(segment.as_str(), updated, now);
            carry_out(store, decision, secrets)
        },
        Route::DiaryUpdateThoughts(segment) => {
            let updated = UpdatedThoughtsFormData { thoughts_content: form.thoughts_content };
            let decision = diary_thoughts_put_at(segment.as_str(), updated, now);
            carry_out(store, decision, secrets)
        },
        Route::DiaryDelete(segment) => {
            let decision = diary_delete(segment.as_str());
            carry_out(store, decision, secrets)
        },
    }
}

/// A response, the permission headers to attach to it, and the state the
/// request leaves behind: the bucket, the table and the retired identifiers.
pub struct ServedView {
    pub response: ResponseView,
    pub cors: Option<GrantView>,
    pub bucket: BucketView,
    pub table: Seq<RecordView>,
    pub retired: Set<u128>,
}

/// What serving one request comes to. A rejected request is answered with
/// its rejection, gets no permission header and leaves the table alone; a
/// request that no route matches gets the not-found notice; any other runs
/// its handler. The permission headers are those the cross-origin policy
/// granted, and no line goes out in which the configured key stands.
pub open spec fn served(
    scene: Scene,
    form: FormView,
    id: u128,
    now: i64,
    bucket: BucketView,
    table: Seq<RecordView>,
    retired: Set<u128>,
) -> ServedView {
    let end = screened(scene, bucket);
    match end.outcome {
        OutcomeView::Routed(route, grant) => {
            let done = handled(route, form, id, now, table, retired, seq![scene.secret]);
            ServedView {
                response: done.response,
                cors: grant,
                bucket: end.bucket,
                table: done.table,
                retired: done.retired,
            }
        },
        OutcomeView::NotFound(grant) => ServedView {
            response: not_found_notice(),
            cors: grant,
            bucket: end.bucket,
            table,
            retired,
        },
        OutcomeView::Rejected(rejection) => ServedView {
            response: ResponseView::failure(rejection.error()).withheld(seq![scene.secret]),
            cors: None,
            bucket: end.bucket,
            table,
            retired,
        },
    }
}

/// A response and the permission headers to attach to it.
#[derive(Clone, Debug, PartialEq, Eq)]
pub struct Served {
    pub response: Response,
    pub cors: Option<CorsGrant>,
}

/// Serves `request`, which comes in at `now` with `form` in its body; a new
/// entry would get the identifier `id`. A field of the form that was not
/// sent is empty.
pub fn serve_with(
    pipeline: &mut Pipeline,
    store: &mut DiaryStore,
    request: &Request,
    form: FormData,
    id: u128,
    now: i64,
) -> (reply: Served)
    requires
        old(pipeline).wf(),
        old(store).wf(),
    ensures
        final(pipeline).wf(),
        final(store).wf(),
        final(pipeline).secret() == old(pipeline).secret(),
        final(pipeline).policy() == old(pipeline).policy(),
        (ServedView {
            response: reply.response@,
            cors: grant_view(reply.cors),
            bucket: final(pipeline).bucket(),
            table: final(store)@,
            retired: final(store).retired(),
        }) == served(
            old(pipeline).scene(*request, now as int),
            form@,
            id,
            now,
            old(pipeline).bucket(),
            old(store)@,
            old(store).retired(),
        ),
{
    let secrets = pipeline.secrets();
    match pipeline.screen_at(request, now) {
        Outcome::Routed(route, cors) => {
            let response = handle_with(store, route, form, id, now, &secrets);
            Served { response, cors }
        },
        Outcome::NotFound(cors) => Served { response: not_found(), cors },
        Outcome::Rejected(rejection) => Served {
            response: rejection.response().withhold(&secrets),
            cors: None,
        },
    }
}

/// Serves `request` as of now: the time is read from the clock and the
/// identifier for a new entry is drawn afresh. Whatever the two come to,
/// the reply is that of `serve_with` for them, the identifier carries the
/// marks of a random UUID, so it is not the nil UUID, and the time is not
/// before the epoch.
pub fn serve(
    pipeline: &mut Pipeline,
    store: &mut DiaryStore,
    request: &Request,
    form: FormData,
) -> (reply: Served)
    requires
        old(pipeline).wf(),
        old(store).wf(),
    ensures
        final(pipeline).wf(),
        final(store).wf(),
        final(pipeline).secret() == old(pipeline).secret(),
        final(pipeline).policy() == old(pipeline).policy(),
        exists|id: u128, now: i64|
            0 <= now && random_marks(id) && id != 0 && (ServedView {
                response: reply.response@,
                cors: grant_view(reply.cors),
                bucket: final(pipeline).bucket(),
                table: final(store)@,
                retired: final(store).retired(),
            }) == #[trigger] served(
                old(pipeline).scene(*request, now as int),
                form@,
                id,
                now,
                old(pipeline).bucket(),
                old(store)@,
                old(store).retired(),
            ),
{
    let id = random_uuid();
    let now = utc_now_micros();
    proof {
        marked_is_not_nil(id);
    }
    serve_with(pipeline, store, request, form, id, now)
}

/// A request that is rejected changes nothing in the store, whatever it
/// asked for, and gets no permission header; and without the configured key
/// every request is rejected, with status 401 and an empty body.
pub proof fn rejected_means_untouched(
    scene: Scene,
    form: FormView,
    id: u128,
    now: i64,
    bucket: BucketView,
    table: Seq<RecordView>,
    retired: Set<u128>,
)
    ensures
        screened(scene, bucket).outcome is Rejected ==> {
            &&& served(scene, form, id, now, bucket, table, retired).table == table
            &&& served(scene, form, id, now, bucket, table, retired).retired == retired
            &&& served(scene, form, id, now, bucket, table, retired).cors is None
        },
        scene.presented != Some(scene.secret) ==> {
            &&& served(scene, form, id, now, bucket, table, retired).response.status == 401
            &&& served(scene, form, id, now, bucket, table, retired).response.body is Empty
            &&& served(scene, form, id, now, bucket, table, retired).table == table
            &&& served(scene, form, id, now, bucket, table, retired).bucket == bucket
        },
{
}

} // verus!
