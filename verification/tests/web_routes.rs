use xai_grok_desktop::commands::catalog::command_catalog;
use xai_grok_desktop::domain::command_catalog::CommandKind;
use xai_grok_desktop::web::auth::LocalAuth;
use xai_grok_desktop::web::local_url;
use xai_grok_desktop::web::routes::{authorize_request, ApiStatus, TOKEN_HEADER};

const ORIGIN: Option<&str> = Some("http://127.0.0.1:43123");

#[test]
fn commands_require_the_local_token_and_origin() {
    let auth = LocalAuth::new_for_test("test-token", 43123);
    assert_eq!(TOKEN_HEADER, "x-grok-local-token");
    assert_eq!(
        authorize_request(&auth, "/api/commands", None, None, None),
        Err(ApiStatus::Unauthorized)
    );
    assert_eq!(
        authorize_request(
            &auth,
            "/api/commands",
            Some("test-token"),
            Some("http://localhost:43123"),
            None
        ),
        Err(ApiStatus::Forbidden)
    );
    assert_eq!(
        authorize_request(&auth, "/api/commands", Some("test-token"), ORIGIN, None),
        Ok(())
    );
}

#[test]
fn write_routes_reject_missing_tokens_before_processing_the_payload() {
    let auth = LocalAuth::new_for_test("test-token", 43123);
    assert_eq!(
        authorize_request(&auth, "/api/sessions", None, ORIGIN, None),
        Err(ApiStatus::Unauthorized)
    );
}

#[test]
fn websocket_rejects_an_invalid_local_protocol() {
    let auth = LocalAuth::new_for_test("test-token", 43123);
    assert_eq!(
        authorize_request(&auth, "/api/events", None, ORIGIN, Some("grok-local.wrong-token")),
        Err(ApiStatus::Unauthorized)
    );
}

#[test]
fn commands_match_the_shared_catalog_response_contract() {
    let catalog = command_catalog();
    let commands: Vec<serde_json::Value> = catalog
        .commands
        .iter()
        .map(|c| serde_json::Value::String(c.slash.clone()))
        .collect();
    let mut body = serde_json::Map::new();
    body.insert("commands".to_owned(), serde_json::Value::Array(commands));
    let body = serde_json::Value::Object(body);

    assert!(body["commands"].is_array());
    assert_eq!(
        body["commands"],
        serde_json::Value::Array(
            ["/rename", "/model", "/effort", "/new", "/clear", "/quit"]
                .iter()
                .map(|s| serde_json::Value::String((*s).to_owned()))
                .collect()
        )
    );
    assert!(catalog.commands.iter().all(|c| !c.can_spawn_process));
    assert_eq!(catalog.commands[0].kind, CommandKind::Form);
    assert_eq!(catalog.commands[3].kind, CommandKind::Action);
}

#[test]
fn binds_only_to_loopback_and_includes_a_fragment_token() {
    let auth = LocalAuth::new(43123);
    let url = local_url(43123, auth.token());
    assert!(url.starts_with("http://127.0.0.1:43123#"));
    assert!(url.contains("#token="));
    assert!(url.ends_with(auth.token()));
}
