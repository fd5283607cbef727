use api::api::auth::{
    authorization_token, check_rate_limit, is_admin, require_admin, require_token, require_valid,
    Claims,
};
use api::api::response::{error_for_code, ErrorCodes, IntoApiResponse};
use api::api::ApiError;

fn claims(sub: &str) -> Claims {
    Claims { sub: sub.to_string(), user_id: None }
}

fn parts(e: ApiError) -> (u16, String) {
    e.into_response()
}

#[test]
fn token_is_second_word_of_header() {
    assert_eq!(authorization_token(Some("Bearer abc.def")), Some("abc.def".to_string()));
    assert_eq!(authorization_token(Some("  Bearer \t tok  extra")), Some("tok".to_string()));
    assert_eq!(authorization_token(Some("Bearer")), None);
    assert_eq!(authorization_token(Some("")), None);
    assert_eq!(authorization_token(None), None);
}

#[test]
fn missing_token_is_refused() {
    assert_eq!(parts(require_token(None).unwrap_err()), (401, "failed to authorization".to_string()));
    assert_eq!(require_token(Some("t".to_string())).ok(), Some("t".to_string()));
}

#[test]
fn invalid_token_is_refused() {
    assert_eq!(parts(require_valid(None).unwrap_err()), (401, "invalid token".to_string()));
    let c = require_valid(Some(claims("me"))).ok().unwrap();
    assert_eq!(c.sub, "me");
}

#[test]
fn only_the_admin_passes_admin_check() {
    assert!(is_admin("root", "root"));
    assert!(!is_admin("root", "roo"));
    assert!(require_admin(claims("root"), "root").is_ok());
    assert_eq!(
        parts(require_admin(claims("guest"), "root").unwrap_err()),
        (401, "you don't have access".to_string())
    );
}

#[test]
fn rate_limit_allows_ten_requests() {
    assert!(check_rate_limit(Some(0)).is_ok());
    assert!(check_rate_limit(Some(10)).is_ok());
    assert_eq!(parts(check_rate_limit(Some(11)).unwrap_err()), (401, "reached rate limit".to_string()));
    assert_eq!(parts(check_rate_limit(None).unwrap_err()), (500, "internal error".to_string()));
}

#[test]
fn claims_take_the_user_id() {
    let c = claims("me").with_user_id(7);
    assert_eq!(c.user_id, Some(7));
    assert_eq!(c.sub, "me");
    let d = c.duplicate();
    assert_eq!(d.user_id, Some(7));
}

#[test]
fn api_errors_answer_with_their_status() {
    assert_eq!(parts(ApiError::AuthError("a".to_string())), (401, "a".to_string()));
    assert_eq!(parts(ApiError::ClientError("b".to_string())), (400, "b".to_string()));
    assert_eq!(parts(ApiError::ServerError("c".to_string())), (500, "c".to_string()));
}

fn codes() -> ErrorCodes {
    ErrorCodes::new(vec![
        ("400-001".to_string(), "bad request".to_string()),
        ("502-001".to_string(), "failed to get pages".to_string()),
        ("400-001".to_string(), "shadowed".to_string()),
    ])
}

#[test]
fn error_codes_choose_the_error_kind() {
    let c = codes();
    assert_eq!(parts(error_for_code("400-001", &c)), (400, "bad request".to_string()));
    assert_eq!(parts(error_for_code("502-001", &c)), (500, "failed to get pages".to_string()));
    assert_eq!(c.lookup("404-404"), None);
}

#[test]
fn failures_become_api_errors() {
    let c = codes();
    let ok: Result<u8, ()> = Ok(3);
    assert_eq!(ok.into_response("missing", &c).ok(), Some(3));
    let failed: Result<u8, String> = Err("boom".to_string());
    assert_eq!(parts(failed.into_response("502-001", &c).unwrap_err()), (500, "failed to get pages".to_string()));
    let failed: Result<u8, String> = Err("boom".to_string());
    assert_eq!(parts(failed.into_response("400-001", &c).unwrap_err()), (400, "bad request".to_string()));
}
