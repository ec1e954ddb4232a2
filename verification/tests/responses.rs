use api_core::auth::Error as AuthError;
use api_core::error::{AppError, BodyRejection, DbFailure, ErrorShape, QueryFailure, RateLimitFailure};
use api_core::json::DetailValue;
use api_core::message::Message;
use api_core::respond::{into_response, render_body};
use api_core::route_error::RouteError;

fn body_json(body: &str) -> serde_json::Value {
    serde_json::from_str(body).expect("the wire body must be valid JSON")
}

#[test]
fn test_database_error_hides_detail() {
    let response = into_response(AppError::Database(DbFailure::Other(
        "connection reset by peer".to_owned(),
    )));

    assert_eq!(response.status, 500);
    assert_eq!(response.body, "{\"success\":false,\"errors\":[]}");

    let v = body_json(&response.body);
    assert_eq!(v["success"], serde_json::Value::Bool(false));
    assert_eq!(v["errors"].as_array().unwrap().len(), 0);
    assert!(!response.body.contains("connection"));
}

#[test]
fn test_malformed_json_is_400_with_one_message() {
    let response = into_response(AppError::Json(BodyRejection::SyntaxError(
        "expected value at line 1 column 2".to_owned(),
    )));

    assert_eq!(response.status, 400);
    let v = body_json(&response.body);
    let errors = v["errors"].as_array().unwrap();
    assert_eq!(errors.len(), 1);
    assert_eq!(errors[0]["code"], "json_syntax_error");
}

#[test]
fn test_missing_content_type_message() {
    let response = into_response(AppError::Json(BodyRejection::MissingContentType));

    assert_eq!(response.status, 400);
    let v = body_json(&response.body);
    let errors = v["errors"].as_array().unwrap();
    assert_eq!(errors.len(), 1);
    assert_eq!(errors[0]["code"], "missing_json_content_type");
    assert_eq!(errors[0]["message"], "Missing JSON content type.");
}

#[test]
fn test_query_error_is_400() {
    let response = into_response(AppError::Query(QueryFailure::Deserialize(
        "invalid digit found in string".to_owned(),
    )));

    assert_eq!(response.status, 400);
    let v = body_json(&response.body);
    assert_eq!(v["errors"][0]["code"], "query_deserialize_error");
}

#[test]
fn test_response_idempotent() {
    let make = || {
        into_response(AppError::Json(BodyRejection::SerdePath("user.name".to_owned())))
    };
    let first = make();
    let second = make();

    assert_eq!(first.status, second.status);
    assert_eq!(first.headers, second.headers);
    assert_eq!(first.body.as_bytes(), second.body.as_bytes());
}

#[test]
fn test_rate_limit_headers_forwarded() {
    let response = into_response(AppError::Governor(RateLimitFailure::TooManyRequests {
        headers: Some(vec![("retry-after".to_owned(), "7".to_owned())]),
    }));

    assert_eq!(response.status, 429);
    assert_eq!(response.headers, vec![("retry-after".to_owned(), "7".to_owned())]);
    let v = body_json(&response.body);
    assert_eq!(v["errors"][0]["code"], "too_many_requests");
}

#[test]
fn test_rate_limit_other_without_message_is_empty() {
    let response = into_response(AppError::Governor(RateLimitFailure::Other {
        code: 503,
        msg: None,
        headers: None,
    }));

    assert_eq!(response.status, 503);
    let v = body_json(&response.body);
    assert_eq!(v["errors"].as_array().unwrap().len(), 0);
}

#[test]
fn test_message_round_trip_full() {
    let message = Message::new("limit_reached")
        .content("The limit was reached.")
        .detail("limit", DetailValue::Int(25))
        .detail("negative", DetailValue::Int(-3))
        .detail("name", DetailValue::Str("alpha".to_owned()))
        .detail("hard", DetailValue::Bool(true))
        .detail("hole", DetailValue::Null);
    let body = render_body(vec![message]);

    let v = body_json(&body);
    let m = &v["errors"][0];
    assert_eq!(m["code"], "limit_reached");
    assert_eq!(m["message"], "The limit was reached.");
    assert_eq!(m["details"]["limit"], serde_json::Value::from(25));
    assert_eq!(m["details"]["negative"], serde_json::Value::from(-3));
    assert_eq!(m["details"]["name"], "alpha");
    assert_eq!(m["details"]["hard"], serde_json::Value::Bool(true));
    assert_eq!(m["details"]["hole"], serde_json::Value::Null);
}

#[test]
fn test_message_round_trip_absent_fields_are_absent() {
    let body = render_body(vec![Message::new("conflict")]);

    let v = body_json(&body);
    let m = v["errors"][0].as_object().unwrap();
    assert_eq!(m["code"], "conflict");
    assert!(!m.contains_key("message"));
    assert!(!m.contains_key("details"));
}

#[test]
fn test_message_escaping_survives_parsing() {
    let tricky = "a \"quoted\\path\"\nwith\tcontrol\rchars";
    let body = render_body(vec![
        Message::new("odd").content(tricky).detail("value", DetailValue::Str(tricky.to_owned())),
    ]);

    let v = body_json(&body);
    assert_eq!(v["errors"][0]["message"], tricky);
    assert_eq!(v["errors"][0]["details"]["value"], tricky);
}

#[test]
fn test_detail_overwrites_existing_key() {
    let message = Message::new("quota")
        .detail("limit", DetailValue::Int(1))
        .detail("scope", DetailValue::Str("day".to_owned()))
        .detail("limit", DetailValue::Int(2));

    let details = message.details.as_ref().unwrap();
    assert_eq!(details.len(), 2);
    assert_eq!(details[0], ("limit".to_owned(), DetailValue::Int(2)));
    assert_eq!(details[1], ("scope".to_owned(), DetailValue::Str("day".to_owned())));

    // Repeating the same detail is idempotent.
    let again = message.detail("limit", DetailValue::Int(2));
    let details = again.details.as_ref().unwrap();
    assert_eq!(details.len(), 2);
    assert_eq!(details[0], ("limit".to_owned(), DetailValue::Int(2)));

    let v = body_json(&render_body(vec![again]));
    let rendered = v["errors"][0]["details"].as_object().unwrap();
    assert_eq!(rendered.len(), 2);
    assert_eq!(rendered["limit"], serde_json::Value::from(2));
}

#[test]
fn test_control_characters_round_trip() {
    let wild = "bell\u{7} esc\u{1b} nul\u{0} tab\t";
    let body = render_body(vec![
        Message::new("odd").content(wild).detail("value", DetailValue::Str(wild.to_owned())),
    ]);

    let v = body_json(&body);
    assert_eq!(v["errors"][0]["message"], wild);
    assert_eq!(v["errors"][0]["details"]["value"], wild);
}

#[test]
fn test_builders() {
    let message = Message::new("code_only");
    assert_eq!(message.code, "code_only");
    assert_eq!(message.content, None);
    assert_eq!(message.details, None);

    let listed = Message::new("solo").into_vec();
    assert_eq!(listed.len(), 1);
    assert_eq!(listed[0].code, "solo");
}

#[test]
fn test_error_shape_statuses() {
    assert_eq!(AppError::Validation(Vec::new()).status(), 400);
    assert_eq!(AppError::Json(BodyRejection::UnknownJson).status(), 400);
    assert_eq!(AppError::Query(QueryFailure::Unknown).status(), 400);
    assert_eq!(AppError::Database(DbFailure::Other(String::new())).status(), 500);
    assert_eq!(
        AppError::Governor(RateLimitFailure::UnableToExtractKey).status(),
        500
    );
}

#[test]
fn test_remaining_body_rejections() {
    let v = body_json(&into_response(AppError::Json(BodyRejection::DataError(
        "invalid type: string, expected i64".to_owned(),
    ))).body);
    assert_eq!(v["errors"][0]["code"], "json_deserialize_error");
    assert_eq!(v["errors"][0]["message"], "invalid type: string, expected i64");

    let v = body_json(&into_response(AppError::Json(BodyRejection::BytesFailure(
        "length limit exceeded".to_owned(),
    ))).body);
    assert_eq!(v["errors"][0]["code"], "unacceptable_json_payload");

    let v = body_json(&into_response(AppError::Json(BodyRejection::UnknownJson)).body);
    assert_eq!(v["errors"][0]["code"], "unknown_json_error");

    let v = body_json(&into_response(AppError::Json(BodyRejection::SerdePath(
        "posts[0].title".to_owned(),
    ))).body);
    assert_eq!(v["errors"][0]["code"], "json_deserialize_error");
    assert_eq!(v["errors"][0]["details"]["field"], "posts[0].title");

    let v = body_json(&into_response(AppError::Query(QueryFailure::Unknown)).body);
    assert_eq!(v["errors"][0]["code"], "unknown_query_error");
}

#[test]
fn test_internal_auth_errors_are_500() {
    let argon = into_response(RouteError::<AuthError>::Route(AuthError::Argon));
    assert_eq!(argon.status, 500);
    assert_eq!(body_json(&argon.body)["errors"][0]["code"], "password_hash_error");

    let cookie = into_response(RouteError::<AuthError>::Route(AuthError::Cookie));
    assert_eq!(cookie.status, 500);
    assert_eq!(body_json(&cookie.body)["errors"][0]["code"], "cookie_parse_error");

    let session = into_response(RouteError::<AuthError>::Route(AuthError::InvalidSessionCookie));
    assert_eq!(session.status, 401);
    assert_eq!(body_json(&session.body)["errors"][0]["code"], "invalid_session");

    let key = into_response(RouteError::<AuthError>::Route(AuthError::InvalidApiKey));
    assert_eq!(key.status, 401);
    assert_eq!(body_json(&key.body)["errors"][0]["code"], "invalid_api_key");
}

#[test]
fn test_governor_key_extraction_failure() {
    let response = into_response(AppError::Governor(RateLimitFailure::UnableToExtractKey));
    assert_eq!(response.status, 500);
    assert_eq!(body_json(&response.body)["errors"][0]["code"], "internal_error");
    assert_eq!(response.headers, vec![
        ("content-type".to_owned(), "application/json".to_owned()),
    ]);
}

#[test]
fn test_schema_violations_one_message_each() {
    let rejection = BodyRejection::SchemaViolations(vec![
        "\"name\" is too short".to_owned(),
        "\"age\" must be a number".to_owned(),
    ]);
    let response = into_response(AppError::Json(rejection));

    assert_eq!(response.status, 400);
    let v = body_json(&response.body);
    let errors = v["errors"].as_array().unwrap();
    assert_eq!(errors.len(), 2);
    assert_eq!(errors[0]["code"], "json_validation_error");
    assert_eq!(errors[1]["code"], "json_validation_error");
}
