use xai_grok_desktop::commands::catalog::{command_catalog, get_command_catalog};
use xai_grok_desktop::domain::command_catalog::{
    CommandKind, DesktopCommand, argument_name, normalize_slash, requires_confirmation,
};

#[test]
fn rename_becomes_a_form() {
    let item = DesktopCommand::from_slash("/rename", true, true);

    assert_eq!(item.kind, CommandKind::Form);
}

#[test]
fn quit_requires_confirmation() {
    assert!(DesktopCommand::from_slash("/quit", false, false).requires_confirmation);
}

#[test]
fn dynamic_commands_never_spawn_processes() {
    let item = DesktopCommand::from_slash("/plugin-action", true, false);

    assert_eq!(item.kind, CommandKind::PromptDispatch);
    assert!(!item.can_spawn_process);
}

#[test]
fn slash_is_trimmed_lowercased_and_prefixed() {
    assert_eq!(normalize_slash("  Model \t"), "/model");
    assert_eq!(normalize_slash("/Rename"), "/rename");
    assert_eq!(normalize_slash(""), "/");
    assert_eq!(normalize_slash("/ÉCLAIR"), "/Éclair");
}

#[test]
fn normalized_known_command_keeps_its_form() {
    let item = DesktopCommand::from_slash("  RENAME ", true, true);

    assert_eq!(item.slash, "/rename");
    assert_eq!(item.kind, CommandKind::Form);
    assert_eq!(item.arguments.len(), 1);
    assert_eq!(item.arguments[0].name, "session_name");
    assert!(item.arguments[0].required);
}

#[test]
fn known_command_without_arguments_is_an_action() {
    let item = DesktopCommand::from_slash("/clear", false, true);

    assert_eq!(item.kind, CommandKind::Action);
    assert!(item.requires_confirmation);
    assert!(item.arguments.is_empty());
}

#[test]
fn confirmation_list_covers_destructive_commands() {
    for slash in ["/quit", "/exit", "/new", "/clear", "/rewind", "/logout", "/memory clear", "/worktree rm"] {
        assert!(requires_confirmation(slash), "{slash}");
    }
    for slash in ["/rename", "/model", "/effort", "/help", "quit"] {
        assert!(!requires_confirmation(slash), "{slash}");
    }
}

#[test]
fn argument_names_follow_the_command() {
    assert_eq!(argument_name("/rename"), "session_name");
    assert_eq!(argument_name("/model"), "model");
    assert_eq!(argument_name("/effort"), "effort");
    assert_eq!(argument_name("/plugin-action"), "argument");
}

#[test]
fn unknown_command_arguments_use_the_generic_name() {
    let item = DesktopCommand::from_slash("plugin-action", true, false);

    assert_eq!(item.slash, "/plugin-action");
    assert_eq!(item.arguments[0].name, "argument");
    assert!(!item.arguments[0].required);
}

#[test]
fn catalog_lists_the_six_desktop_commands() {
    let catalog = command_catalog();
    let slashes: Vec<&str> = catalog.commands.iter().map(|c| c.slash.as_str()).collect();

    assert_eq!(slashes, ["/rename", "/model", "/effort", "/new", "/clear", "/quit"]);
    assert_eq!(catalog.commands[0].kind, CommandKind::Form);
    assert_eq!(catalog.commands[3].kind, CommandKind::Action);
    assert!(catalog.commands.iter().all(|c| !c.can_spawn_process));
    assert!(catalog.commands[5].requires_confirmation);
    assert!(!catalog.commands[1].requires_confirmation);
    assert_eq!(get_command_catalog(), catalog);
}
