use xai_grok_desktop::commands::chat::set_preference;
use xai_grok_desktop::commands::desktop_invoke_schema;
use xai_grok_desktop::commands::terminal::open_workspace_dialog;

#[test]
fn ipc_schema_excludes_raw_process_inputs() {
    let schema = desktop_invoke_schema();

    assert!(!schema.iter().any(|name| *name == "rawArgs"));
    assert!(!schema.iter().any(|name| *name == "program"));
}

#[test]
fn ipc_schema_lists_only_approved_operations() {
    let schema = desktop_invoke_schema();

    assert_eq!(
        schema.as_slice(),
        &[
            "get_command_catalog",
            "start_session",
            "send_message",
            "respond_to_approval",
            "launch_terminal_session",
            "list_sessions",
            "open_workspace_dialog",
            "set_preference",
        ]
    );
}

#[test]
fn preferences_are_accepted() {
    assert_eq!(set_preference("theme".into(), "dark".into()), Ok(()));
}

#[test]
fn workspace_dialog_proposes_the_demo_workspace() {
    assert_eq!(open_workspace_dialog(), Ok("C:/work/demo".to_string()));
}
