use xai_grok_desktop::domain::chat::FrontendEventKind;
use xai_grok_desktop::services::live_agent::{
    approval_id, choose_auth_method, permission_outcome, ConnectError, prompt_failed_event, session_changed_event, ApprovalBook,
    ApprovalError, ClientMessage, ClientReply, PermissionOption, PermissionOptionKind,
    PermissionOutcome,
};

fn option(id: &str, kind: PermissionOptionKind) -> PermissionOption {
    PermissionOption { option_id: id.to_owned(), kind }
}

fn standard_options() -> Vec<PermissionOption> {
    vec![
        option("always", PermissionOptionKind::AllowAlways),
        option("once", PermissionOptionKind::AllowOnce),
        option("reject", PermissionOptionKind::RejectOnce),
    ]
}

#[test]
fn approval_ids_count_up_from_one() {
    assert_eq!(approval_id(1), "approval-1");
    assert_eq!(approval_id(42), "approval-42");
    assert_eq!(approval_id(0), "approval-0");
    assert_eq!(approval_id(u64::MAX), "approval-18446744073709551615");
}

#[test]
fn approved_request_selects_the_first_allow_once_option() {
    let options = vec![
        option("always", PermissionOptionKind::AllowAlways),
        option("first", PermissionOptionKind::AllowOnce),
        option("second", PermissionOptionKind::AllowOnce),
    ];
    assert_eq!(permission_outcome(&options, true), PermissionOutcome::Selected("first".to_owned()));
    assert_eq!(permission_outcome(&options, false), PermissionOutcome::Cancelled);
}

#[test]
fn approval_without_allow_once_is_cancelled() {
    let options = vec![
        option("always", PermissionOptionKind::AllowAlways),
        option("reject", PermissionOptionKind::RejectAlways),
    ];
    assert_eq!(permission_outcome(&options, true), PermissionOutcome::Cancelled);
    assert_eq!(permission_outcome(&Vec::new(), true), PermissionOutcome::Cancelled);
}

#[test]
fn permission_request_is_filed_announced_and_held() {
    let mut book = ApprovalBook::new();
    let out = book.step(ClientMessage::RequestPermission { options: standard_options() });
    assert_eq!(out.reply, ClientReply::AwaitDecision("approval-1".to_owned()));
    let event = out.event.unwrap();
    assert_eq!(event.kind, FrontendEventKind::ApprovalRequested);
    assert_eq!(event.text.as_deref(), Some("Tool requests permission"));
    assert_eq!(event.approval_id.as_deref(), Some("approval-1"));
    assert!(!event.approved);

    let out = book.step(ClientMessage::RequestPermission { options: vec![] });
    assert_eq!(out.reply, ClientReply::AwaitDecision("approval-2".to_owned()));
}

#[test]
fn answered_approval_is_gone() {
    let mut book = ApprovalBook::new();
    let id = book.register(standard_options());
    assert_eq!(id, "approval-1");
    assert_eq!(book.respond(&id, true), Ok(PermissionOutcome::Selected("once".to_owned())));
    assert_eq!(book.respond(&id, true), Err(ApprovalError::NotPending));
    assert_eq!(ApprovalError::NotPending.message(), "approval request is no longer pending");
}

#[test]
fn rejected_approval_is_cancelled_and_others_stay_pending() {
    let mut book = ApprovalBook::new();
    let first = book.register(standard_options());
    let second = book.register(standard_options());
    assert_eq!(book.respond(&first, false), Ok(PermissionOutcome::Cancelled));
    assert_eq!(book.respond("approval-99", true), Err(ApprovalError::NotPending));
    assert_eq!(book.respond(&second, true), Ok(PermissionOutcome::Selected("once".to_owned())));
}

#[test]
fn session_updates_stream_text_chunks() {
    let mut book = ApprovalBook::new();
    let out = book.step(ClientMessage::SessionUpdate { text_chunk: Some("hi".to_owned()) });
    assert_eq!(out.reply, ClientReply::Acknowledge);
    let event = out.event.unwrap();
    assert_eq!(event.kind, FrontendEventKind::AssistantDelta);
    assert_eq!(event.text.as_deref(), Some("hi"));

    let out = book.step(ClientMessage::SessionUpdate { text_chunk: Some(String::new()) });
    assert_eq!(out.reply, ClientReply::Acknowledge);
    assert!(out.event.is_none());

    let out = book.step(ClientMessage::SessionUpdate { text_chunk: None });
    assert!(out.event.is_none());
}

#[test]
fn unsupported_methods_are_refused_and_notifications_acknowledged() {
    let mut book = ApprovalBook::new();
    let out = book.step(ClientMessage::UnsupportedRequest);
    assert_eq!(out.reply, ClientReply::MethodNotFound);
    assert!(out.event.is_none());
    let out = book.step(ClientMessage::ExtNotification);
    assert_eq!(out.reply, ClientReply::Acknowledge);
    assert!(out.event.is_none());
    // Neither filed anything: the first approval id is still unused.
    assert_eq!(book.register(vec![]), "approval-1");
}

#[test]
fn session_and_error_events() {
    let event = session_changed_event("s-1");
    assert_eq!(event.kind, FrontendEventKind::SessionChanged);
    assert_eq!(event.text.as_deref(), Some("s-1"));
    assert_eq!(event.approval_id, None);

    let event = prompt_failed_event("boom");
    assert_eq!(event.kind, FrontendEventKind::Error);
    assert_eq!(event.text.as_deref(), Some("boom"));
}

#[test]
fn kth_request_is_filed_as_approval_k() {
    let mut book = ApprovalBook::new();
    for k in 1..=5u64 {
        book.step(ClientMessage::ExtNotification);
        let out = book.step(ClientMessage::RequestPermission { options: standard_options() });
        assert_eq!(out.reply, ClientReply::AwaitDecision(format!("approval-{k}")));
        assert_eq!(book.respond(&format!("approval-{k}"), false), Ok(PermissionOutcome::Cancelled));
    }
}

#[test]
fn a_second_answer_is_refused() {
    let mut book = ApprovalBook::new();
    let id = book.register(standard_options());
    let other = book.register(standard_options());
    assert_eq!(book.respond(&id, false), Ok(PermissionOutcome::Cancelled));
    assert_eq!(book.respond(&id, true), Err(ApprovalError::NotPending));
    assert_eq!(book.respond(&other, true), Ok(PermissionOutcome::Selected("once".to_owned())));
}

#[test]
fn the_first_advertised_auth_method_is_used() {
    assert_eq!(
        choose_auth_method(&vec!["grok-login".to_owned(), "api-key".to_owned()]),
        Ok("grok-login".to_owned())
    );
    assert_eq!(choose_auth_method(&Vec::new()), Err(ConnectError::NoAuthMethod));
    assert_eq!(
        ConnectError::NoAuthMethod.message(),
        "agent did not advertise an authentication method"
    );
}
