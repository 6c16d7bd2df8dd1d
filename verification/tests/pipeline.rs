use rivet_head_api::domain::appstate::AppState;
use rivet_head_api::domain::diary_record::DiaryRecord;
use rivet_head_api::errors::{Field, Reason, ValidationError};
use rivet_head_api::middleware::cors::{CorsGrant, CorsPolicy};
use rivet_head_api::middleware::rate_limit::TokenBucket;
use rivet_head_api::pipeline::{Outcome, Pipeline, Rejection, Stage};
use rivet_head_api::request::{Method, Request};
use rivet_head_api::response::{Body, Response};
use rivet_head_api::routes::diary::FormData;
use rivet_head_api::routes::not_found::NotFoundResponse;
use rivet_head_api::routes::router::Route;
use rivet_head_api::service::{carry_out, handle_with, serve, serve_with, Served};
use rivet_head_api::statement::Statement;
use rivet_head_api::store::DiaryStore;

const START: i64 = 1_700_000_000_000_000;
const ID_TEXT: &str = "550e8400-e29b-41d4-a716-446655440000";
const ID: u128 = 0x550e8400_e29b_41d4_a716_446655440000;

fn pipeline() -> Pipeline {
    Pipeline::new(
        AppState::new("s3cret".to_string()),
        TokenBucket::new(2, 5, START).unwrap(),
        CorsPolicy::new(3600)
            .allowed_origin("https://api.example.com")
            .allowed_suffix(".example.app"),
    )
}

fn blank() -> FormData {
    FormData {
        band_content: String::new(),
        album_content: String::new(),
        thoughts_content: String::new(),
    }
}

fn request(method: Method, path: &str, key: Option<&str>) -> Request {
    Request {
        method,
        path: path.to_string(),
        x_api_key: key.map(|text| text.to_string()),
        origin: None,
    }
}

fn new_entry(key: Option<&str>) -> Request {
    request(Method::Post, "/diary/new", key)
}

fn entry_form() -> FormData {
    FormData {
        band_content: "Metallica".to_string(),
        album_content: "RideTheLightning".to_string(),
        thoughts_content: "Great".to_string(),
    }
}

fn album_form(album: &str) -> FormData {
    FormData { album_content: album.to_string(), ..blank() }
}

fn thoughts_form(thoughts: &str) -> FormData {
    FormData { thoughts_content: thoughts.to_string(), ..blank() }
}

fn crud_requests(key: Option<&str>) -> Vec<Request> {
    vec![
        request(Method::Get, "/diary", key),
        new_entry(key),
        request(Method::Put, "/diary/update/album/550e8400-e29b-41d4-a716-446655440000", key),
        request(Method::Put, "/diary/update/thoughts/550e8400-e29b-41d4-a716-446655440000", key),
        request(Method::Delete, "/diary/delete/550e8400-e29b-41d4-a716-446655440000", key),
    ]
}

fn message(status: u16, text: &str) -> Response {
    Response { status, body: Body::Message(text.to_string()) }
}

fn grant(origin: &str) -> CorsGrant {
    CorsPolicy::new(3600).allowed_origin(origin).evaluate(Some(origin)).unwrap()
}

#[test]
fn a_request_with_the_key_reaches_its_route() {
    let mut pipeline = pipeline();
    assert_eq!(
        pipeline.screen_at(&request(Method::Get, "/diary", Some("s3cret")), START),
        Outcome::Routed(Route::DiaryList, None)
    );
    assert_eq!(
        pipeline.screen_at(&request(Method::Get, "/info", Some("s3cret")), START),
        Outcome::Routed(Route::Info, None)
    );
}

#[test]
fn every_route_is_closed_without_the_key() {
    let mut pipeline = pipeline();
    let mut requests = crud_requests(None);
    requests.extend(crud_requests(Some("wrong")));
    requests.extend(crud_requests(Some("")));
    requests.push(request(Method::Get, "/info", None));
    requests.push(request(Method::Get, "/health_check", Some("s3cre")));
    requests.push(request(Method::Get, "/nowhere", None));
    for request in requests {
        assert_eq!(pipeline.screen_at(&request, START), Outcome::Rejected(Rejection::Unauthorized));
    }
}

#[test]
fn an_unauthorized_request_costs_no_token() {
    let mut pipeline = pipeline();
    for _ in 0..100 {
        assert_eq!(
            pipeline.screen_at(&request(Method::Get, "/diary", None), START),
            Outcome::Rejected(Rejection::Unauthorized)
        );
    }
    for _ in 0..5 {
        assert_eq!(
            pipeline.screen_at(&request(Method::Get, "/diary", Some("s3cret")), START),
            Outcome::Routed(Route::DiaryList, None)
        );
    }
}

#[test]
fn the_sixth_request_at_once_is_rate_limited() {
    let mut pipeline = pipeline();
    let request = request(Method::Get, "/diary", Some("s3cret"));
    for _ in 0..5 {
        assert_eq!(pipeline.screen_at(&request, START), Outcome::Routed(Route::DiaryList, None));
    }
    assert_eq!(pipeline.screen_at(&request, START), Outcome::Rejected(Rejection::RateLimited));
    let later = START + 1_000_000;
    assert_eq!(pipeline.screen_at(&request, later), Outcome::Routed(Route::DiaryList, None));
    assert_eq!(pipeline.screen_at(&request, later), Outcome::Routed(Route::DiaryList, None));
    assert_eq!(pipeline.screen_at(&request, later), Outcome::Rejected(Rejection::RateLimited));
}

#[test]
fn an_unmatched_path_ends_as_not_found_and_costs_a_token() {
    let mut pipeline = pipeline();
    for _ in 0..5 {
        assert_eq!(
            pipeline.screen_at(&request(Method::Get, "/nowhere", Some("s3cret")), START),
            Outcome::NotFound(None)
        );
    }
    assert_eq!(
        pipeline.screen_at(&request(Method::Get, "/nowhere", Some("s3cret")), START),
        Outcome::Rejected(Rejection::RateLimited)
    );
}

#[test]
fn the_permission_headers_follow_the_origin() {
    let mut pipeline = pipeline();
    let mut allowed = request(Method::Get, "/diary", Some("s3cret"));
    allowed.origin = Some("https://sub.example.app".to_string());
    assert_eq!(
        pipeline.screen_at(&allowed, START),
        Outcome::Routed(Route::DiaryList, Some(grant("https://sub.example.app")))
    );
    let mut listed = request(Method::Get, "/nowhere", Some("s3cret"));
    listed.origin = Some("https://api.example.com".to_string());
    assert_eq!(
        pipeline.screen_at(&listed, START),
        Outcome::NotFound(Some(grant("https://api.example.com")))
    );
    let mut evil = request(Method::Get, "/diary", Some("s3cret"));
    evil.origin = Some("https://evil.com".to_string());
    assert_eq!(pipeline.screen_at(&evil, START), Outcome::Routed(Route::DiaryList, None));
}

#[test]
fn the_stages_run_in_their_order() {
    let mut pipeline = pipeline();
    let mut request = request(Method::Delete, "/diary/delete/abc", Some("s3cret"));
    request.origin = Some("https://api.example.com".to_string());
    let stage = pipeline.step(Stage::Received, &request, START);
    assert_eq!(stage, Stage::Authenticated);
    let stage = pipeline.step(stage, &request, START);
    assert_eq!(stage, Stage::Admitted);
    let stage = pipeline.step(stage, &request, START);
    assert_eq!(stage, Stage::CorsEvaluated(Some(grant("https://api.example.com"))));
    let stage = pipeline.step(stage, &request, START);
    assert_eq!(
        stage,
        Stage::Done(Outcome::Routed(
            Route::DiaryDelete("abc".to_string()),
            Some(grant("https://api.example.com"))
        ))
    );
    assert_eq!(pipeline.step(stage.clone(), &request, START), stage);
}

#[test]
fn a_stage_that_rejects_ends_the_run() {
    let mut pipeline = pipeline();
    let anonymous = request(Method::Get, "/diary", None);
    assert_eq!(
        pipeline.step(Stage::Received, &anonymous, START),
        Stage::Done(Outcome::Rejected(Rejection::Unauthorized))
    );
    let rejected = Stage::Done(Outcome::Rejected(Rejection::Unauthorized));
    assert_eq!(pipeline.step(rejected.clone(), &anonymous, START), rejected);

    let holder = request(Method::Get, "/nowhere", Some("s3cret"));
    for _ in 0..5 {
        assert_eq!(pipeline.step(Stage::Authenticated, &holder, START), Stage::Admitted);
    }
    assert_eq!(
        pipeline.step(Stage::Authenticated, &holder, START),
        Stage::Done(Outcome::Rejected(Rejection::RateLimited))
    );
    assert_eq!(
        pipeline.step(Stage::CorsEvaluated(None), &holder, START),
        Stage::Done(Outcome::NotFound(None))
    );
}

#[test]
fn the_rejections_have_their_responses() {
    assert_eq!(Rejection::Unauthorized.response(), Response { status: 401, body: Body::Empty });
    assert_eq!(Rejection::RateLimited.response(), message(429, "Too many requests..."));
}

#[test]
fn the_clock_driven_run_lets_the_key_holder_in() {
    let mut pipeline = pipeline();
    assert_eq!(
        pipeline.screen(&request(Method::Get, "/health_check", Some("s3cret"))),
        Outcome::Routed(Route::HealthCheck, None)
    );
    assert_eq!(
        pipeline.screen(&request(Method::Get, "/health_check", None)),
        Outcome::Rejected(Rejection::Unauthorized)
    );
}

#[test]
fn served_round_trip_of_one_entry() {
    let mut pipeline = pipeline();
    let mut store = DiaryStore::new();
    let created = serve_with(&mut pipeline, &mut store, &new_entry(Some("s3cret")), entry_form(), 7, START);
    assert_eq!(created, Served { response: message(200, "New diary item added..."), cors: None });
    let listing = request(Method::Get, "/diary", Some("s3cret"));
    let listed = serve_with(&mut pipeline, &mut store, &listing, blank(), 8, START);
    assert_eq!(
        listed.response,
        Response {
            status: 200,
            body: Body::Entries(vec![DiaryRecord {
                id: 7,
                created_at: START,
                updated_at: None,
                band: "Metallica".to_string(),
                album: "RideTheLightning".to_string(),
                thoughts: "Great".to_string(),
            }]),
        }
    );
}

#[test]
fn served_requests_without_the_key_change_nothing() {
    let mut pipeline = pipeline();
    let mut store = DiaryStore::new();
    store
        .create_with(ID, START, "Metallica".to_string(), "RideTheLightning".to_string(), "Great".to_string())
        .unwrap();
    let before = store.list_all();
    let mut requests = crud_requests(None);
    requests.extend(crud_requests(Some("guess")));
    for request in requests {
        let reply = serve_with(&mut pipeline, &mut store, &request, entry_form(), 9, START + 10);
        assert_eq!(reply, Served { response: Response { status: 401, body: Body::Empty }, cors: None });
        assert!(!format!("{:?}", reply).contains("s3cret"));
    }
    assert_eq!(store.list_all(), before);
}

#[test]
fn served_update_and_delete_of_an_entry() {
    let mut pipeline = pipeline();
    let mut store = DiaryStore::new();
    serve_with(&mut pipeline, &mut store, &new_entry(Some("s3cret")), entry_form(), ID, START);

    let update = request(
        Method::Put,
        "/diary/update/album/550e8400-e29b-41d4-a716-446655440000",
        Some("s3cret"),
    );
    let reply =
        serve_with(&mut pipeline, &mut store, &update, album_form("MasterOfPuppets"), 1, START + 5);
    assert_eq!(reply.response, message(200, "Diary item album content updated..."));
    let record = store.get(ID).unwrap();
    assert_eq!(record.album, "MasterOfPuppets");
    assert_eq!(record.thoughts, "Great");
    assert_eq!(record.band, "Metallica");
    assert_eq!(record.created_at, START);
    assert_eq!(record.updated_at, Some(START + 5));

    let update = request(
        Method::Put,
        "/diary/update/thoughts/550e8400-e29b-41d4-a716-446655440000",
        Some("s3cret"),
    );
    let reply =
        serve_with(&mut pipeline, &mut store, &update, thoughts_form("Classic"), 1, START + 6);
    assert_eq!(reply.response, message(200, "Diary item thoughts content updated..."));
    assert_eq!(store.get(ID).unwrap().thoughts, "Classic");
    assert_eq!(store.get(ID).unwrap().updated_at, Some(START + 6));

    let delete = request(
        Method::Delete,
        "/diary/delete/550e8400-e29b-41d4-a716-446655440000",
        Some("s3cret"),
    );
    let reply = serve_with(&mut pipeline, &mut store, &delete, blank(), 1, START + 7);
    assert_eq!(reply.response, message(200, "Diary item removed..."));
    assert_eq!(store.len(), 0);
    let later = START + 5_000_000;
    let reply = serve_with(&mut pipeline, &mut store, &delete, blank(), 1, later);
    assert_eq!(reply.response, message(200, "Diary item removed..."));
}

#[test]
fn served_update_of_a_missing_entry_is_told_apart() {
    let mut pipeline = pipeline();
    let mut store = DiaryStore::new();
    let update = request(
        Method::Put,
        "/diary/update/album/550e8400-e29b-41d4-a716-446655440000",
        Some("s3cret"),
    );
    let reply =
        serve_with(&mut pipeline, &mut store, &update, album_form("MasterOfPuppets"), 1, START);
    assert_eq!(reply.response, message(500, "Diary item not found..."));
    assert_eq!(store.len(), 0);
}

#[test]
fn served_malformed_identifier_is_a_client_error() {
    let mut pipeline = pipeline();
    let mut store = DiaryStore::new();
    let delete = request(Method::Delete, "/diary/delete/42", Some("s3cret"));
    let reply = serve_with(&mut pipeline, &mut store, &delete, blank(), 1, START);
    assert_eq!(
        reply.response,
        Response {
            status: 400,
            body: Body::Invalid(ValidationError { field: Field::Id, reason: Reason::MalformedId }),
        }
    );
}

#[test]
fn served_invalid_form_is_a_client_error_and_writes_nothing() {
    let mut pipeline = pipeline();
    let mut store = DiaryStore::new();
    let mut form = entry_form();
    form.album_content = "Ride The Lightning".to_string();
    let reply = serve_with(&mut pipeline, &mut store, &new_entry(Some("s3cret")), form, 1, START);
    assert_eq!(
        reply.response,
        Response {
            status: 400,
            body: Body::Invalid(ValidationError {
                field: Field::Album,
                reason: Reason::NotAlphanumeric
            }),
        }
    );
    assert_eq!(store.len(), 0);
}

#[test]
fn served_unmatched_path_gets_the_notice() {
    let mut pipeline = pipeline();
    let mut store = DiaryStore::new();
    let mut request = request(Method::Get, "/nowhere", Some("s3cret"));
    request.origin = Some("https://api.example.com".to_string());
    let reply = serve_with(&mut pipeline, &mut store, &request, blank(), 1, START);
    assert_eq!(
        reply,
        Served {
            response: Response {
                status: 404,
                body: Body::NotFound(NotFoundResponse { message: "Resource not found".to_string() }),
            },
            cors: Some(grant("https://api.example.com")),
        }
    );
}

#[test]
fn served_rate_limited_request_gets_429() {
    let mut pipeline = pipeline();
    let mut store = DiaryStore::new();
    for id in 0..5 {
        let reply =
            serve_with(&mut pipeline, &mut store, &new_entry(Some("s3cret")), entry_form(), id, START);
        assert_eq!(reply.response.status, 200);
    }
    let reply =
        serve_with(&mut pipeline, &mut store, &new_entry(Some("s3cret")), entry_form(), 5, START);
    assert_eq!(reply, Served { response: message(429, "Too many requests..."), cors: None });
    assert_eq!(store.len(), 5);
}

#[test]
fn served_by_the_clock() {
    let mut pipeline = pipeline();
    let mut store = DiaryStore::new();
    let reply = serve(&mut pipeline, &mut store, &new_entry(Some("s3cret")), entry_form());
    assert_eq!(reply.response, message(200, "New diary item added..."));
    let listed = store.list_all();
    assert_eq!(listed.len(), 1);
    assert_eq!(listed[0].band, "Metallica");
    assert_ne!(listed[0].id, 0);
    assert!(listed[0].created_at > START);
    let reply = serve(&mut pipeline, &mut store, &new_entry(None), entry_form());
    assert_eq!(reply.response.status, 401);
    assert_eq!(store.len(), 1);
}

#[test]
fn handlers_run_against_the_store() {
    let secrets = vec!["s3cret".to_string()];
    let mut store = DiaryStore::new();
    let form = FormData {
        band_content: "Metallica".to_string(),
        album_content: "RideTheLightning".to_string(),
        thoughts_content: "Great".to_string(),
    };
    assert_eq!(
        handle_with(&mut store, Route::DiaryCreate, form, ID, START, &secrets),
        message(200, "New diary item added...")
    );
    assert_eq!(
        handle_with(&mut store, Route::HealthCheck, blank(), 1, START, &secrets).status,
        200
    );
    assert_eq!(handle_with(&mut store, Route::Info, blank(), 1, START, &secrets).status, 200);
    assert_eq!(
        handle_with(
            &mut store,
            Route::DiaryDelete(ID_TEXT.to_string()),
            blank(),
            1,
            START,
            &secrets
        ),
        message(200, "Diary item removed...")
    );
    assert_eq!(
        carry_out(&mut store, Ok(Statement::Delete { id: ID }), &secrets),
        message(200, "Diary item removed...")
    );
    assert_eq!(store.len(), 0);
}

#[test]
fn the_pipeline_names_its_key_as_the_secret() {
    assert_eq!(pipeline().secrets(), vec!["s3cret".to_string()]);
}

#[test]
fn served_failure_of_a_write_tells_no_secret() {
    let mut pipeline = pipeline();
    let mut store = DiaryStore::new();
    serve_with(&mut pipeline, &mut store, &new_entry(Some("s3cret")), entry_form(), ID, START);
    let again =
        serve_with(&mut pipeline, &mut store, &new_entry(Some("s3cret")), entry_form(), ID, START);
    assert_eq!(again.response, message(500, "duplicate key value violates unique constraint"));
    assert!(!format!("{:?}", again).contains("s3cret"));
    assert_eq!(store.len(), 1);
}

#[test]
fn served_lines_never_hold_the_key() {
    let mut pipeline = Pipeline::new(
        AppState::new("item".to_string()),
        TokenBucket::new(2, 1, START).unwrap(),
        CorsPolicy::new(3600),
    );
    let mut store = DiaryStore::new();
    let created =
        serve_with(&mut pipeline, &mut store, &new_entry(Some("item")), entry_form(), ID, START);
    assert_eq!(created.response, Response { status: 200, body: Body::Empty });
    assert_eq!(store.len(), 1);
    let throttled =
        serve_with(&mut pipeline, &mut store, &new_entry(Some("item")), entry_form(), 9, START);
    assert_eq!(throttled.response, message(429, "Too many requests..."));
}

#[test]
fn served_by_the_clock_draws_a_random_uuid() {
    let mut pipeline = pipeline();
    let mut store = DiaryStore::new();
    serve(&mut pipeline, &mut store, &new_entry(Some("s3cret")), entry_form());
    let id = store.list_all()[0].id;
    assert_ne!(id, 0);
    assert_eq!((id >> 76) & 0xf, 4);
    assert_eq!((id >> 62) & 0x3, 2);
}
