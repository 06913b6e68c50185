use xai_grok_desktop::web::auth::LocalAuth;
use xai_grok_desktop::web::local_url;
use xai_grok_desktop::web::routes::{
    ApiStatus, authorize, authorize_request, authorize_websocket, offers_protocol, require_text,
    websocket_protocol,
};

#[test]
fn rejects_missing_token_and_non_loopback_origin() {
    let auth = LocalAuth::new_for_test("test-token", 43123);

    assert!(!auth.authorizes(None, Some("http://127.0.0.1:43123")));
    assert!(!auth.authorizes(Some("test-token"), Some("http://localhost:43123")));
}

#[test]
fn accepts_matching_token_and_loopback_origin() {
    let auth = LocalAuth::new_for_test("test-token", 43123);

    assert!(auth.authorizes(Some("test-token"), Some("http://127.0.0.1:43123")));
}

#[test]
fn origin_is_the_loopback_address_of_the_port() {
    assert_eq!(LocalAuth::new_for_test("t", 43123).origin(), "http://127.0.0.1:43123");
    assert_eq!(LocalAuth::new_for_test("t", 0).origin(), "http://127.0.0.1:0");
    assert_eq!(LocalAuth::new_for_test("t", 65535).origin(), "http://127.0.0.1:65535");
}

#[test]
fn fresh_tokens_are_32_hex_digits_and_differ() {
    let a = LocalAuth::new(8080);
    let b = LocalAuth::new(8080);

    assert_eq!(a.token().len(), 32);
    assert!(a.token().chars().all(|c| c.is_ascii_digit() || ('a'..='f').contains(&c)));
    assert_ne!(a.token(), b.token());
    assert_eq!(a.origin(), "http://127.0.0.1:8080");
}

#[test]
fn url_carries_the_token_in_the_fragment() {
    assert_eq!(local_url(43123, "abc"), "http://127.0.0.1:43123#token=abc");
}

#[test]
fn http_guard_reports_token_before_origin() {
    let auth = LocalAuth::new_for_test("test-token", 43123);

    assert_eq!(authorize(&auth, None, Some("http://127.0.0.1:43123")), Err(ApiStatus::Unauthorized));
    assert_eq!(authorize(&auth, Some("wrong"), None), Err(ApiStatus::Unauthorized));
    assert_eq!(
        authorize(&auth, Some("test-token"), Some("http://localhost:43123")),
        Err(ApiStatus::Forbidden)
    );
    assert_eq!(authorize(&auth, Some("test-token"), Some("http://127.0.0.1:43123")), Ok(()));
}

#[test]
fn websocket_guard_checks_origin_then_protocol() {
    let auth = LocalAuth::new_for_test("test-token", 43123);

    assert_eq!(websocket_protocol(&auth), "grok-local.test-token");
    assert_eq!(
        authorize_websocket(&auth, Some("http://127.0.0.1:43123"), Some("grok-local.wrong-token")),
        Err(ApiStatus::Unauthorized)
    );
    assert_eq!(
        authorize_websocket(&auth, Some("http://localhost:43123"), Some("grok-local.test-token")),
        Err(ApiStatus::Forbidden)
    );
    assert_eq!(
        authorize_websocket(&auth, Some("http://127.0.0.1:43123"), Some("chat, grok-local.test-token ")),
        Ok(())
    );
    assert_eq!(authorize_websocket(&auth, Some("http://127.0.0.1:43123"), None), Err(ApiStatus::Unauthorized));
}

#[test]
fn protocol_list_is_split_on_commas_and_trimmed() {
    assert!(offers_protocol("a,b, c ", "c"));
    assert!(offers_protocol("a,,b", ""));
    assert!(!offers_protocol("ab", "a"));
    assert!(offers_protocol(" x ", "x"));
    assert!(!offers_protocol("x.y", "x"));
}

#[test]
fn event_stream_is_guarded_as_a_websocket() {
    let auth = LocalAuth::new_for_test("test-token", 43123);
    let origin = Some("http://127.0.0.1:43123");

    assert_eq!(
        authorize_request(&auth, "/api/events", Some("test-token"), origin, None),
        Err(ApiStatus::Unauthorized)
    );
    assert_eq!(
        authorize_request(&auth, "/api/events", None, origin, Some("grok-local.test-token")),
        Ok(())
    );
    assert_eq!(
        authorize_request(&auth, "/api/commands", None, origin, Some("grok-local.test-token")),
        Err(ApiStatus::Unauthorized)
    );
    assert_eq!(authorize_request(&auth, "/api/commands", Some("test-token"), origin, None), Ok(()));
}

#[test]
fn blank_fields_are_bad_requests() {
    assert_eq!(require_text(" \t\n"), Err(ApiStatus::BadRequest));
    assert_eq!(require_text(""), Err(ApiStatus::BadRequest));
    assert_eq!(require_text("\u{3000}"), Err(ApiStatus::BadRequest));
    assert_eq!(require_text(" C:/work "), Ok(()));
}
