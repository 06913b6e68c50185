//! Events streamed from the agent bridge to the chat front end.

use vstd::prelude::*;

verus! {

/// What a front-end event reports.
#[derive(Debug, Clone, Copy, PartialEq, Eq)]
pub enum FrontendEventKind {
    AssistantDelta,
    AssistantFinal,
    ToolStarted,
    ToolFinished,
    FileChanged,
    TerminalOutput,
    ApprovalRequested,
    Error,
    SessionChanged,
}

/// One event for the chat front end.
#[derive(Debug, Clone, PartialEq, Eq)]
pub struct FrontendEvent {
    pub kind: FrontendEventKind,
    pub text: Option<String>,
    pub approval_id: Option<String>,
    pub approved: bool,
}

/// The abstract value of a [`FrontendEvent`].
pub struct FrontendEventView {
    pub kind: FrontendEventKind,
    pub text: Option<Seq<char>>,
    pub approval_id: Option<Seq<char>>,
    pub approved: bool,
}

/// The abstract value of an optional string.
pub open spec fn opt_string_view(s: Option<String>) -> Option<Seq<char>> {
    match s {
        Some(s) => Some(s@),
        None => None,
    }
}

impl View for FrontendEvent {
    type V = FrontendEventView;

    open spec fn view(&self) -> FrontendEventView {
        FrontendEventView {
            kind: self.kind,
            text: opt_string_view(self.text),
            approval_id: opt_string_view(self.approval_id),
            approved: self.approved,
        }
    }
}

/// The agent notifications that the bridge translates for the front end.
#[derive(Debug, Clone, PartialEq, Eq)]
pub enum TestAgentEvent {
    TextDelta(String),
    ApprovalRequested { id: String },
}

/// The operations a chat back end offers the desktop commands.
pub trait DesktopAgentClient: Send + Sync {
    fn send_message(&self, session_id: &str, message: &str) -> Result<(), String>;

    fn respond_to_approval(&self, approval_id: &str, approved: bool) -> Result<(), String>;
}

} // verus!
