use api_core::auth::{delete_me_outcome, update_me_outcome};
use api_core::error::{AppError, DbFailure};
use api_core::extract::{extract_path, extract_query};
use api_core::key;
use api_core::model::{Key, Post, User};
use api_core::pagination::{IdInput, Paginate};
use api_core::post;
use api_core::respond::into_response;
use api_core::route_error::RouteError;

fn uuid_text(n: u128) -> String {
    uuid::Uuid::from_u128(n).to_string()
}

fn body_json(body: &str) -> serde_json::Value {
    serde_json::from_str(body).expect("the wire body must be valid JSON")
}

fn sample_post(id: u128) -> Post {
    Post {
        id,
        user_id: 1,
        title: "A day at the lake".to_owned(),
        content: "It was calm.".to_owned(),
        created_at: 1_700_000_000,
    }
}

fn sample_key(id: u128) -> Key {
    Key { id, user_id: 1, created_at: 1_700_000_000 }
}

#[test]
fn test_unknown_post_is_404_with_id_in_details() {
    let id: u128 = 0x0123456789abcdef0123456789abcdef;
    let outcome = post::get_post_outcome(Ok(None), id);
    let error = outcome.expect_err("no row matched");
    let response = into_response(error);

    assert_eq!(response.status, 404);
    let v = body_json(&response.body);
    let errors = v["errors"].as_array().unwrap();
    assert_eq!(errors.len(), 1);
    assert_eq!(errors[0]["code"], "post_not_found");
    assert_eq!(errors[0]["details"]["post"], uuid_text(id).as_str());
}

#[test]
fn test_found_post_reaches_the_handler() {
    let found = post::get_post_outcome(Ok(Some(sample_post(5))), 5).unwrap();
    assert_eq!(found.title, "A day at the lake");
}

#[test]
fn test_post_lookup_failure_is_hidden() {
    let outcome = post::get_post_outcome(Err(DbFailure::Other("pool timed out".to_owned())), 5);
    let error = outcome.expect_err("the lookup failed");
    let response = into_response(error);

    assert_eq!(response.status, 500);
    assert_eq!(response.body, "{\"success\":false,\"errors\":[]}");
}

#[test]
fn test_update_post_matching_no_row_is_404() {
    let outcome = post::update_post_outcome(Ok(None), 9);
    assert_eq!(
        outcome.expect_err("not the caller's post"),
        RouteError::Route(post::Error::UnknownPost(9))
    );
}

#[test]
fn test_delete_post_counts_rows() {
    assert!(post::delete_post_outcome(Ok(1), 9).is_ok());
    assert_eq!(
        post::delete_post_outcome(Ok(0), 9).expect_err("nothing was deleted"),
        RouteError::Route(post::Error::UnknownPost(9))
    );
}

#[test]
fn test_list_and_create_posts_pass_through() {
    let posts = post::list_posts_outcome(Ok(vec![sample_post(1), sample_post(2)])).unwrap();
    assert_eq!(posts.len(), 2);
    let created = post::create_post_outcome(Ok(sample_post(3))).unwrap();
    assert_eq!(created.id, 3);
}

#[test]
fn test_unknown_key_is_404_with_id_in_details() {
    let id: u128 = 77;
    let outcome = key::get_key_outcome(Ok(None), id);
    let error = outcome.expect_err("no row matched");
    let response = into_response(error);

    assert_eq!(response.status, 404);
    let v = body_json(&response.body);
    let errors = v["errors"].as_array().unwrap();
    assert_eq!(errors.len(), 1);
    assert_eq!(errors[0]["code"], "key_not_found");
    assert_eq!(errors[0]["details"]["key"], uuid_text(id).as_str());
}

#[test]
fn test_key_outcomes() {
    assert_eq!(key::get_key_outcome(Ok(Some(sample_key(4))), 4).unwrap().id, 4);
    assert!(key::delete_key_outcome(Ok(1), 4).is_ok());
    assert_eq!(
        key::delete_key_outcome(Ok(0), 4).expect_err("nothing was deleted"),
        RouteError::Route(key::Error::UnknownKey(4))
    );
    assert_eq!(key::list_keys_outcome(Ok(vec![sample_key(1)])).unwrap().len(), 1);
    assert_eq!(key::create_key_outcome(Ok(sample_key(2))).unwrap().id, 2);
}

#[test]
fn test_extract_query_validates_pagination() {
    let extracted = extract_query(Ok(Paginate { page: 2, size: 10 })).unwrap();
    assert_eq!(extracted.0.offset(), 10);

    let error = extract_query(Ok(Paginate { page: 0, size: 10 })).expect_err("page 0 is invalid");
    let response = into_response(error);
    assert_eq!(response.status, 400);
    let v = body_json(&response.body);
    assert_eq!(v["errors"][0]["code"], "range");
    assert_eq!(v["errors"][0]["details"]["field"], "page");
    assert_eq!(v["errors"][0]["details"]["value"], serde_json::Value::from(0));
}

#[test]
fn test_extract_path_passes_ids_through() {
    let extracted = extract_path(Ok(IdInput { id: 12 })).unwrap();
    assert_eq!(extracted.0.id, 12);
}

#[test]
fn test_update_me_outcomes() {
    let user = User {
        id: 1,
        email: "a@b.com".to_owned(),
        password: vec![0u8; 32],
        username: "john".to_owned(),
        created_at: 0,
    };
    assert_eq!(update_me_outcome(Ok(user)).unwrap().username, "john");

    let outcome = update_me_outcome(Err(DbFailure::Other("gone".to_owned())));
    assert_eq!(
        outcome.expect_err("the update failed"),
        RouteError::App(AppError::Database(DbFailure::Other("gone".to_owned())))
    );
}

#[test]
fn test_delete_me_clears_cookie() {
    let action = delete_me_outcome(Ok(1)).unwrap();
    assert!(action.clear_cookie);
    assert_eq!(action.status, 204);
    assert_eq!(action.delete_session, None);

    assert!(delete_me_outcome(Err(DbFailure::Other(String::new()))).is_err());
}
