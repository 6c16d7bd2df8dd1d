use rivet_head_api::domain::appstate::AppState;
use rivet_head_api::middleware::auth_key_middleware::{credential_matches, header_name, ApiKey};
use rivet_head_api::response::{Body, Response};
use rivet_head_api::text::constant_time_eq;

#[test]
fn the_credential_header_is_x_api_key() {
    assert_eq!(header_name(), "x-api-key");
}

#[test]
fn only_the_exact_secret_matches() {
    assert!(credential_matches("s3cret", Some("s3cret")));
    assert!(!credential_matches("s3cret", Some("s3cre")));
    assert!(!credential_matches("s3cret", Some("s3cret ")));
    assert!(!credential_matches("s3cret", Some("S3CRET")));
    assert!(!credential_matches("s3cret", Some("")));
    assert!(!credential_matches("s3cret", None));
}

#[test]
fn a_missing_credential_never_matches_even_an_empty_secret() {
    assert!(!credential_matches("", None));
    assert!(credential_matches("", Some("")));
}

#[test]
fn secrets_outside_ascii_are_compared_whole() {
    assert!(credential_matches("clé-secrète", Some("clé-secrète")));
    assert!(!credential_matches("clé-secrète", Some("cle-secrete")));
}

#[test]
fn constant_time_eq_agrees_with_equality() {
    assert!(constant_time_eq(b"", b""));
    assert!(constant_time_eq(b"abc", b"abc"));
    assert!(!constant_time_eq(b"abc", b"abd"));
    assert!(!constant_time_eq(b"abc", b"ab"));
    assert!(!constant_time_eq(b"ab", b"abc"));
    assert!(!constant_time_eq(b"abc", b""));
    assert!(!constant_time_eq(&[0], &[]));
    assert!(!constant_time_eq(&[1, 2], &[2, 1]));
}

#[test]
fn the_guard_lets_the_key_holder_reach_the_service() {
    let state = AppState::new("s3cret".to_string());
    let guard = ApiKey.new_transform(41_u32);
    assert_eq!(guard.call(&state, Some("s3cret")), Ok(&41));
}

#[test]
fn the_guard_answers_401_without_a_body() {
    let state = AppState::new("s3cret".to_string());
    let guard = ApiKey.new_transform(());
    let unauthorized = Response { status: 401, body: Body::Empty };
    assert_eq!(guard.call(&state, None), Err(unauthorized.clone()));
    assert_eq!(guard.call(&state, Some("wrong")), Err(unauthorized.clone()));
    assert_eq!(guard.call(&state, Some("")), Err(unauthorized.clone()));
    assert_eq!(guard.call(&state, Some("s3cret-and-more")), Err(unauthorized));
}

#[test]
fn the_rejection_never_holds_the_secret() {
    let state = AppState::new("s3cret".to_string());
    let guard = ApiKey.new_transform(());
    let response = guard.call(&state, Some("guess")).unwrap_err();
    assert!(!format!("{:?}", response).contains("s3cret"));
    assert_eq!(response.body, Body::Empty);
}

#[test]
fn app_state_keeps_the_key_through_a_clone() {
    let state = AppState::new("s3cret".to_string());
    assert_eq!(state.clone().api_key, "s3cret");
}
