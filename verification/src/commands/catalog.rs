//! The command catalog offered to the desktop and browser front ends.

use vstd::prelude::*;

use crate::domain::command_catalog::{desktop_command_view, DesktopCommand, DesktopCommandView};

verus! {

/// The menu entries the front end renders.
#[derive(Debug, Clone, PartialEq, Eq)]
pub struct CommandCatalog {
    pub commands: Vec<DesktopCommand>,
}

/// The catalog entries, in menu order.
pub open spec fn command_catalog_view() -> Seq<DesktopCommandView> {
    seq![
        desktop_command_view("/rename"@, true, true),
        desktop_command_view("/model"@, true, true),
        desktop_command_view("/effort"@, true, true),
        desktop_command_view("/new"@, false, false),
        desktop_command_view("/clear"@, false, false),
        desktop_command_view("/quit"@, false, false),
    ]
}

/// The IPC handler that hands the catalog to the webview.
pub fn get_command_catalog() -> (r: CommandCatalog)
    ensures
        r.commands@.map_values(|c: DesktopCommand| c@) == command_catalog_view(),
{
    command_catalog()
}

/// The fixed catalog: three commands with forms and three actions.
pub fn command_catalog() -> (r: CommandCatalog)
    ensures
        r.commands@.map_values(|c: DesktopCommand| c@) == command_catalog_view(),
{
    let commands = vec![
        DesktopCommand::from_slash("/rename", true, true),
        DesktopCommand::from_slash("/model", true, true),
        DesktopCommand::from_slash("/effort", true, true),
        DesktopCommand::from_slash("/new", false, false),
        DesktopCommand::from_slash("/clear", false, false),
        DesktopCommand::from_slash("/quit", false, false),
    ];
    assert(commands@.map_values(|c: DesktopCommand| c@) =~= command_catalog_view());
    CommandCatalog { commands }
}

} // verus!
