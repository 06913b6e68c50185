//! Translation between agent notifications, user approvals and front-end
//! events.

use vstd::prelude::*;

use crate::domain::chat::{FrontendEvent, FrontendEventKind, FrontendEventView, TestAgentEvent};

verus! {

/// The answer sent back for a tool permission request.
#[derive(Debug, Clone, Copy, PartialEq, Eq)]
pub enum ApprovalDecision {
    AllowOnce,
    Cancel,
}

/// The decision for a permission request: only an explicit approval of a
/// request that offers a one-time allowance is granted, and only once; every
/// other case fails closed. A standing allowance is never selected.
pub open spec fn approval_decision_view(approved: bool, has_allow_once: bool) -> ApprovalDecision {
    if approved && has_allow_once {
        ApprovalDecision::AllowOnce
    } else {
        ApprovalDecision::Cancel
    }
}

/// Decides how to answer a permission request.
pub fn approval_decision(approved: bool, has_allow_once: bool, has_allow_always: bool) -> (r:
    ApprovalDecision)
    ensures
        r == approval_decision_view(approved, has_allow_once),
{
    let _ = has_allow_always;
    if approved && has_allow_once {
        ApprovalDecision::AllowOnce
    } else {
        ApprovalDecision::Cancel
    }
}

/// The front-end event for an agent notification: text becomes an assistant
/// delta, a permission request becomes a pending approval.
pub open spec fn agent_event_view(event: TestAgentEvent) -> FrontendEventView {
    match event {
        TestAgentEvent::TextDelta(text) => FrontendEventView {
            kind: FrontendEventKind::AssistantDelta,
            text: Some(text@),
            approval_id: None,
            approved: false,
        },
        TestAgentEvent::ApprovalRequested { id } => FrontendEventView {
            kind: FrontendEventKind::ApprovalRequested,
            text: None,
            approval_id: Some(id@),
            approved: false,
        },
    }
}

/// Maps an agent notification to the event the front end renders. No event
/// is ever marked approved: approval waits for the user.
pub fn map_agent_event(event: TestAgentEvent) -> (r: FrontendEvent)
    ensures
        r@ == agent_event_view(event),
        !r.approved,
{
    match event {
        TestAgentEvent::TextDelta(text) => FrontendEvent {
            kind: FrontendEventKind::AssistantDelta,
            text: Some(text),
            approval_id: None,
            approved: false,
        },
        TestAgentEvent::ApprovalRequested { id } => FrontendEvent {
            kind: FrontendEventKind::ApprovalRequested,
            text: None,
            approval_id: Some(id),
            approved: false,
        },
    }
}

} // verus!
