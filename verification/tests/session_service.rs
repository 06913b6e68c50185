use xai_grok_desktop::services::session_service::{SessionError, SessionRegistry};

#[test]
fn sessions_are_listed_in_start_order() {
    let mut registry = SessionRegistry::new();
    assert!(registry.list_sessions().is_empty());
    registry.record_session("s-1".to_owned());
    registry.record_session("s-2".to_owned());
    assert_eq!(registry.list_sessions(), vec!["s-1", "s-2"]);
    assert!(registry.contains("s-2"));
    assert!(!registry.contains("s-3"));
}

#[test]
fn workspace_must_be_a_directory() {
    assert_eq!(SessionRegistry::check_workspace(true), Ok(()));
    assert_eq!(
        SessionRegistry::check_workspace(false),
        Err(SessionError::WorkspaceMissing)
    );
    assert_eq!(
        SessionError::WorkspaceMissing.message(),
        "workspace directory does not exist"
    );
}

#[test]
fn blank_input_is_refused_before_the_session_lookup() {
    let registry = SessionRegistry::new();
    assert_eq!(registry.check_message("  ", "hello"), Err(SessionError::EmptyInput));
    assert_eq!(registry.check_message("s-1", "\t\n"), Err(SessionError::EmptyInput));
    assert_eq!(
        SessionError::EmptyInput.message(),
        "session id and message cannot be empty"
    );
}

#[test]
fn unknown_sessions_are_refused() {
    let mut registry = SessionRegistry::new();
    registry.record_session("s-1".to_owned());
    assert_eq!(registry.check_message("s-2", "hello"), Err(SessionError::UnknownSession));
    assert_eq!(SessionError::UnknownSession.message(), "unknown session");
}

#[test]
fn a_recorded_session_accepts_messages() {
    let mut registry = SessionRegistry::new();
    registry.record_session("s-1".to_owned());
    assert_eq!(registry.check_message("s-1", "hello"), Ok(()));
    registry.record_session("s-2".to_owned());
    assert_eq!(registry.check_message("s-1", " again "), Ok(()));
    assert_eq!(registry.check_message("s-2", "x"), Ok(()));
}
