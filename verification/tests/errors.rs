use setlyst::errors::api_error::ApiError;
use setlyst::errors::auth_error::AuthError;
use setlyst::errors::{codes, status};
use setlyst::json::{JsonValue, Number};
use setlyst::time::NaiveDateTime;
use setlyst::validation::{ValidationError, ValidationErrors};

fn now() -> NaiveDateTime {
    NaiveDateTime::parse("2026-10-01T12:00:00").unwrap()
}

fn wait(seconds: u64) -> JsonValue {
    JsonValue::Object(vec![(
        "retry_after_seconds".into(),
        JsonValue::Number(Number::Unsigned(seconds)),
    )])
}

#[test]
fn quota_errors_carry_structured_meta() {
    let answer = ApiError::quota_exceeded("songs", 10).into_response(&now());
    assert_eq!(answer.status, status::FORBIDDEN);
    assert_eq!(answer.code, "QUOTA_EXCEEDED");
    let meta = answer.meta.unwrap();
    assert_eq!(meta.text_of("resource"), Some("songs"));
    assert_eq!(meta.get("limit").and_then(|v| v.as_i64()), Some(10));
}

#[test]
fn waiting_rules_send_retry_after() {
    let busy = ApiError::rule_with_meta(
        status::SERVICE_UNAVAILABLE,
        codes::SERVICE_BUSY,
        "Busy.",
        wait(10),
    );
    assert_eq!(busy.into_response(&now()).retry_after, Some(10));
    let at_once =
        ApiError::rule_with_meta(status::TOO_MANY_REQUESTS, codes::SERVICE_BUSY, "Busy.", wait(0));
    assert_eq!(at_once.into_response(&now()).retry_after, Some(1));
    let until = |text: &str| {
        ApiError::rule_with_meta(
            status::TOO_MANY_REQUESTS,
            codes::SERVICE_BUSY,
            "Locked.",
            JsonValue::Object(vec![("until".into(), JsonValue::Text(text.into()))]),
        )
        .into_response(&now())
        .retry_after
    };
    assert_eq!(until("2026-10-01T12:15:00"), Some(900));
    assert_eq!(until("2026-10-01T12:14:59.5"), Some(900));
    // A lock that just ended still asks for a (minimal) wait.
    assert_eq!(until("2026-10-01T11:59:00"), Some(1));
    assert_eq!(until("soon"), None);
}

#[test]
fn other_errors_do_not_send_retry_after() {
    let rule =
        ApiError::rule_with_meta(status::BAD_REQUEST, codes::INVALID_CODE, "Nope.", wait(10));
    assert_eq!(rule.into_response(&now()).retry_after, None);
    let disabled =
        ApiError::rule(status::SERVICE_UNAVAILABLE, codes::GOOGLE_SIGNIN_DISABLED, "Off.");
    assert_eq!(disabled.into_response(&now()).retry_after, None);
    assert_eq!(ApiError::NotFound.into_response(&now()).retry_after, None);
}

#[test]
fn internal_errors_do_not_leak_details() {
    for error in [
        ApiError::ServerError("secret internals".into()),
        ApiError::EncryptionError("secret internals".into()),
        ApiError::DatabaseError { sqlstate: None, message: "secret internals".into() },
    ] {
        let answer = error.into_response(&now());
        assert_eq!(answer.status, status::INTERNAL_SERVER_ERROR);
        assert!(!format!("{answer:?}").contains("secret internals"));
    }
}

#[test]
fn validation_errors_surface_the_first_field_message() {
    let mut errors = ValidationErrors::new();
    errors.add_error("name", ValidationError::with_message("length", "Too short."));
    let answer = ApiError::ValidationError(errors).into_response(&now());
    assert_eq!(answer.status, status::BAD_REQUEST);
    assert_eq!(answer.message, "Too short.");
    let meta = answer.meta.unwrap();
    let fields = meta.get("fields").and_then(|f| f.get("name")).unwrap();
    match fields {
        JsonValue::Array(items) => assert_eq!(items[0].text_of("code"), Some("length")),
        other => panic!("{other:?}"),
    }
}

#[test]
fn every_error_has_a_status_and_a_code() {
    let answer = |e: ApiError| {
        let a = e.into_response(&now());
        (a.status, a.code)
    };
    assert_eq!(answer(ApiError::NotFound).0, status::NOT_FOUND);
    assert_eq!(answer(ApiError::Forbidden).0, status::FORBIDDEN);
    assert_eq!(answer(ApiError::Unauthorized).0, status::UNAUTHORIZED);
    assert_eq!(answer(ApiError::AuthError(AuthError::MissingToken)).0, status::UNAUTHORIZED);
    assert_eq!(answer(ApiError::AlreadyExists).0, status::CONFLICT);
    assert_eq!(
        answer(ApiError::DatabaseError {
            sqlstate: Some("23505".into()),
            message: "duplicate".into()
        })
        .0,
        status::CONFLICT
    );
    assert_eq!(answer(ApiError::session_revoked()).1, codes::SESSION_REVOKED);
    let banned = ApiError::account_banned(None, Some("spam".into())).into_response(&now());
    assert_eq!(banned.message, "This account is permanently suspended.");
    let until = Some(NaiveDateTime::parse("2026-10-02T09:30:00").unwrap());
    let banned = ApiError::account_banned(until, None).into_response(&now());
    assert_eq!(banned.message, "This account is suspended until 2026-10-02 09:30 UTC.");
    assert_eq!(banned.meta.unwrap().text_of("until"), Some("2026-10-02T09:30:00"));
}
