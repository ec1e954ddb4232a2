use api_core::session::{
    clear_cookie, create_cookie, parse_cookie_pairs, set_cookie_header, session_cookie_value,
};

#[test]
fn test_create_cookie_shape() {
    let cookie = create_cookie(0x550e8400e29b41d4a716446655440000);

    assert_eq!(cookie.name, "session");
    assert_eq!(cookie.value, "550e8400-e29b-41d4-a716-446655440000");
    assert!(cookie.http_only);
    assert_eq!(cookie.path.as_deref(), Some("/"));
    assert_eq!(cookie.max_age_seconds, None);
    assert_eq!(
        set_cookie_header(&cookie),
        "session=550e8400-e29b-41d4-a716-446655440000; HttpOnly; Path=/"
    );
}

#[test]
fn test_clear_cookie_expires_at_once() {
    let cookie = clear_cookie();

    assert_eq!(cookie.name, "session");
    assert_eq!(cookie.value, "");
    assert_eq!(cookie.max_age_seconds, Some(0));
    assert_eq!(set_cookie_header(&cookie), "session=; HttpOnly; Path=/; Max-Age=0");
}

#[test]
fn test_parse_cookie_pairs_splits_and_trims() {
    let pairs = parse_cookie_pairs("theme=dark;  session = abc ; broken; empty=");

    assert_eq!(
        pairs,
        vec![
            ("theme".to_owned(), "dark".to_owned()),
            ("session".to_owned(), "abc".to_owned()),
            ("empty".to_owned(), String::new()),
        ]
    );
}

#[test]
fn test_session_cookie_first_match_wins() {
    let id = uuid::Uuid::from_u128(9).to_string();
    let headers = vec![
        "theme=dark".to_owned(),
        format!("session={}; session=other", id),
        "session=late".to_owned(),
    ];

    assert_eq!(session_cookie_value(&headers), Some(id));
}

#[test]
fn test_session_cookie_absent() {
    assert_eq!(session_cookie_value(&vec!["theme=dark".to_owned()]), None);
    assert_eq!(session_cookie_value(&Vec::new()), None);
}
