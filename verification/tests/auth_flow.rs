use api_core::auth::{
    classify_registration_failure, hash_password, login_decision, login_verify, logout_decision,
    register_outcome, Error as AuthError, LoginInput, RegisterInput,
};
use api_core::error::{AppError, DbFailure, ErrorShape};
use api_core::extract::extract_json;
use api_core::model::User;
use api_core::respond::into_response;
use api_core::route_error::RouteError;
use api_core::session::{credential_of_headers, resolve_credential, SessionOrApiKey};
use api_core::validate::Validated;

fn uuid_text(n: u128) -> String {
    uuid::Uuid::from_u128(n).to_string()
}

fn body_json(body: &str) -> serde_json::Value {
    serde_json::from_str(body).expect("the wire body must be valid JSON")
}

fn user_with_password(password: &str) -> User {
    let id: u128 = 0x550e8400e29b41d4a716446655440000;
    User {
        id,
        email: "john@smith.com".to_owned(),
        password: hash_password(password, id).unwrap(),
        username: "john".to_owned(),
        created_at: 1_700_000_000,
    }
}

#[test]
fn test_register_short_username_and_password() {
    let input = RegisterInput {
        email: "a@b.com".to_owned(),
        username: "ab".to_owned(),
        password: "short".to_owned(),
    };
    let outcome = extract_json(Ok(input));
    let error = outcome.expect_err("two rules are violated");
    let response = into_response(error);

    assert_eq!(response.status, 400);
    let v = body_json(&response.body);
    let errors = v["errors"].as_array().unwrap();
    assert_eq!(errors.len(), 2);
    assert_eq!(errors[0]["code"], "length");
    assert_eq!(errors[0]["details"]["field"], "password");
    assert_eq!(errors[0]["details"]["min"], serde_json::Value::from(8));
    assert_eq!(errors[1]["code"], "length");
    assert_eq!(errors[1]["details"]["field"], "username");
    assert_eq!(errors[1]["details"]["min"], serde_json::Value::from(3));
}

#[test]
fn test_register_valid_input_passes() {
    let input = RegisterInput {
        email: "john@smith.com".to_owned(),
        username: "john".to_owned(),
        password: "hunter2hunter".to_owned(),
    };
    let extracted = extract_json(Ok(input)).expect("a clean value reaches the handler");
    assert_eq!(extracted.0.username, "john");
}

#[test]
fn test_register_rejects_bad_email_and_symbols() {
    let input = RegisterInput {
        email: "not-an-email".to_owned(),
        username: "john!".to_owned(),
        password: "hunter2hunter".to_owned(),
    };
    let error = extract_json(Ok(input)).expect_err("two rules are violated");
    let response = into_response(error);

    assert_eq!(response.status, 400);
    let v = body_json(&response.body);
    let errors = v["errors"].as_array().unwrap();
    assert_eq!(errors.len(), 2);
    assert_eq!(errors[0]["code"], "email");
    assert_eq!(errors[0]["details"]["field"], "email");
    assert_eq!(errors[1]["code"], "username must be alphanumeric");
    assert_eq!(errors[1]["details"]["field"], "username");
}

#[test]
fn test_email_conflict_is_409() {
    let outcome = register_outcome(Err(DbFailure::Constraint("user_email_key".to_owned())));
    let error = outcome.expect_err("the insert failed");
    assert_eq!(error, RouteError::Route(AuthError::EmailTaken));

    let response = into_response(error);
    assert_eq!(response.status, 409);
    let v = body_json(&response.body);
    let errors = v["errors"].as_array().unwrap();
    assert_eq!(errors.len(), 1);
    assert_eq!(errors[0]["code"], "email_taken");
}

#[test]
fn test_username_conflict_is_409() {
    let error = classify_registration_failure(DbFailure::Constraint("user_username_key".to_owned()));
    assert_eq!(error, RouteError::Route(AuthError::UsernameTaken));
    assert_eq!(into_response(error).status, 409);
}

#[test]
fn test_unknown_constraint_stays_hidden() {
    let error = classify_registration_failure(DbFailure::Constraint("post_user_fkey".to_owned()));
    let response = into_response(error);

    assert_eq!(response.status, 500);
    assert_eq!(response.body, "{\"success\":false,\"errors\":[]}");
}

#[test]
fn test_login_with_correct_password() {
    let user = user_with_password("hunter2hunter");
    let outcome = login_verify(Ok(user), "hunter2hunter");
    assert_eq!(outcome.unwrap().username, "john");
}

#[test]
fn test_login_with_wrong_password() {
    let user = user_with_password("hunter2hunter");
    let outcome = login_verify(Ok(user), "hunter2hunter!");
    assert_eq!(
        outcome.expect_err("the digest must not match"),
        RouteError::Route(AuthError::InvalidUsernameOrPassword)
    );
}

#[test]
fn test_login_unknown_user_is_invalid_credentials() {
    let outcome = login_verify(
        Err(DbFailure::Other("no rows returned".to_owned())),
        "hunter2hunter",
    );
    let error = outcome.expect_err("no user was found");
    let response = into_response(error);

    assert_eq!(response.status, 401);
    let v = body_json(&response.body);
    assert_eq!(v["errors"][0]["code"], "invalid_username_or_password");
}

#[test]
fn test_login_decision_rejects_mismatched_digest() {
    let user = user_with_password("hunter2hunter");
    let outcome = login_decision(Ok(user), Some(vec![0u8; 32]));
    assert_eq!(
        outcome.expect_err("an all-zero digest is not the stored one"),
        RouteError::Route(AuthError::InvalidUsernameOrPassword)
    );
}

#[test]
fn test_hash_password_is_deterministic() {
    let id: u128 = 42;
    let first = hash_password("hunter2hunter", id).unwrap();
    let second = hash_password("hunter2hunter", id).unwrap();
    assert_eq!(first, second);
    assert_eq!(first.len(), 32);
    assert_ne!(first, hash_password("hunter2hunter", 43).unwrap());
}

#[test]
fn test_validate_login_rejects_bad_email() {
    let input = LoginInput { email: "nope".to_owned(), password: "hunter2hunter".to_owned() };
    let violations = input.validate();
    assert_eq!(violations.len(), 1);
    assert_eq!(violations[0].field, "email");
    assert_eq!(violations[0].code, "email");

    let fine = LoginInput { email: "a@b.com".to_owned(), password: "hunter2hunter".to_owned() };
    assert!(fine.validate().is_empty());
}

#[test]
fn test_api_key_precedence_over_cookie() {
    let key: u128 = 0x0123456789abcdef0123456789abcdef;
    let authorization = format!("Bearer {}", uuid_text(key));
    let cookies = vec![format!("session={}", uuid_text(7))];

    let credential = credential_of_headers(Some(&authorization), &cookies).unwrap();
    assert_eq!(credential, SessionOrApiKey::ApiKey(key));
}

#[test]
fn test_cookie_credential_without_authorization() {
    let session: u128 = 7;
    let cookies = vec![format!("theme=dark; session={}", uuid_text(session))];

    let credential = credential_of_headers(None, &cookies).unwrap();
    assert_eq!(credential, SessionOrApiKey::Session(session));
}

#[test]
fn test_invalid_bearer_never_falls_back_to_cookie() {
    let cookies = vec![format!("session={}", uuid_text(7))];
    let outcome = credential_of_headers(Some("Bearer not-a-uuid"), &cookies);
    assert_eq!(outcome.expect_err("the header is present but invalid"), AuthError::InvalidApiKey);

    let outcome = credential_of_headers(Some("Token abc"), &cookies);
    assert_eq!(outcome.expect_err("the prefix is wrong"), AuthError::InvalidApiKey);
}

#[test]
fn test_no_credential_is_authentication_required() {
    let outcome = credential_of_headers(None, &vec!["theme=dark".to_owned()]);
    let error = outcome.expect_err("no credential is present");
    assert_eq!(error, AuthError::NoSessionCookieOrApiKey);

    let response = into_response(RouteError::Route(error));
    assert_eq!(response.status, 401);
    let v = body_json(&response.body);
    let errors = v["errors"].as_array().unwrap();
    assert_eq!(errors.len(), 1);
    assert_eq!(errors[0]["code"], "authentication_required");
}

#[test]
fn test_garbled_session_cookie_is_invalid_session() {
    let outcome = credential_of_headers(None, &vec!["session=zzz".to_owned()]);
    assert_eq!(outcome.expect_err("the value is not a UUID"), AuthError::InvalidSessionCookie);
}

#[test]
fn test_resolve_credential_lookups() {
    let user = user_with_password("hunter2hunter");
    let session = resolve_credential(SessionOrApiKey::ApiKey(9), Ok(Some(user))).unwrap();
    assert_eq!(session.id, SessionOrApiKey::ApiKey(9));
    assert_eq!(session.user.username, "john");

    let missing = resolve_credential(SessionOrApiKey::ApiKey(9), Ok(None));
    assert_eq!(
        missing.expect_err("no user owns the key"),
        RouteError::Route(AuthError::InvalidApiKey)
    );

    let missing = resolve_credential(SessionOrApiKey::Session(3), Ok(None));
    assert_eq!(
        missing.expect_err("no session row"),
        RouteError::Route(AuthError::InvalidSessionCookie)
    );

    let broken = resolve_credential(SessionOrApiKey::Session(3), Err(DbFailure::Other("io".to_owned())));
    assert_eq!(
        broken.expect_err("the lookup failed"),
        RouteError::App(AppError::Database(DbFailure::Other("io".to_owned())))
    );
}

#[test]
fn test_logout_decision() {
    let by_cookie = logout_decision(&SessionOrApiKey::Session(11));
    assert_eq!(by_cookie.delete_session, Some(11));
    assert!(by_cookie.clear_cookie);
    assert_eq!(by_cookie.status, 204);

    let by_key = logout_decision(&SessionOrApiKey::ApiKey(11));
    assert_eq!(by_key.delete_session, None);
    assert!(!by_key.clear_cookie);
    assert_eq!(by_key.status, 204);
}

#[test]
fn test_uuid_text_round_trip() {
    let id: u128 = 0x550e8400e29b41d4a716446655440000;
    let cookie = api_core::session::create_cookie(id);
    assert_eq!(cookie.value, "550e8400-e29b-41d4-a716-446655440000");
    assert_eq!(cookie.value, uuid_text(id));

    let headers = vec![format!("session={}", cookie.value)];
    let credential = credential_of_headers(None, &headers).unwrap();
    assert_eq!(credential, SessionOrApiKey::Session(id));
}
