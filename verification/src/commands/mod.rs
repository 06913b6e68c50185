//! The narrow IPC surface of the desktop application.

pub mod catalog;
pub mod chat;
pub mod terminal;

use vstd::prelude::*;

verus! {

/// The only operations the desktop webview may invoke. None of them takes a
/// program path or raw process arguments.
pub const DESKTOP_INVOKE_COMMANDS: [&'static str; 8] = [
    "get_command_catalog",
    "start_session",
    "send_message",
    "respond_to_approval",
    "launch_terminal_session",
    "list_sessions",
    "open_workspace_dialog",
    "set_preference",
];

/// The names of the approved IPC operations, in registration order.
pub open spec fn invoke_schema_view() -> Seq<Seq<char>> {
    seq![
        "get_command_catalog"@,
        "start_session"@,
        "send_message"@,
        "respond_to_approval"@,
        "launch_terminal_session"@,
        "list_sessions"@,
        "open_workspace_dialog"@,
        "set_preference"@,
    ]
}

/// The approved IPC operations.
pub fn desktop_invoke_schema() -> (r: &'static [&'static str; 8])
    ensures
        r@.map_values(|s: &str| s@) == invoke_schema_view(),
{
    let r = &DESKTOP_INVOKE_COMMANDS;
    assert(r@.map_values(|s: &str| s@) =~= invoke_schema_view());
    r
}

} // verus!
