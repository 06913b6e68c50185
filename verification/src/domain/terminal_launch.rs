//! The request and the resulting argument vector of a terminal handoff.

use vstd::prelude::*;

use crate::domain::chat::opt_string_view;
use crate::text::to_string;
use crate::web::auth::opt_str_view;

verus! {

/// How the terminal session treats tool permission requests.
#[derive(Debug, Clone, Copy, PartialEq, Eq)]
pub enum PermissionMode {
    Ask,
    Auto,
    AlwaysApprove,
}

/// What the front end may ask for when it opens a terminal session: a
/// workspace, an optional model and reasoning effort, and a permission mode.
/// It cannot name a program or pass raw arguments.
#[derive(Debug, Clone, PartialEq, Eq)]
pub struct LaunchRequest {
    pub cwd: String,
    pub model: Option<String>,
    pub effort: Option<String>,
    pub permission_mode: PermissionMode,
}

/// The abstract value of a [`LaunchRequest`].
pub struct LaunchRequestView {
    pub cwd: Seq<char>,
    pub model: Option<Seq<char>>,
    pub effort: Option<Seq<char>>,
    pub permission_mode: PermissionMode,
}

impl View for LaunchRequest {
    type V = LaunchRequestView;

    open spec fn view(&self) -> LaunchRequestView {
        LaunchRequestView {
            cwd: self.cwd@,
            model: opt_string_view(self.model),
            effort: opt_string_view(self.effort),
            permission_mode: self.permission_mode,
        }
    }
}

/// A fully resolved terminal launch: the program, its working directory and
/// its argument vector. No shell is involved.
#[derive(Debug, Clone, PartialEq, Eq)]
pub struct TerminalLaunchSpec {
    pub program: String,
    pub cwd: String,
    pub args: Vec<String>,
}

/// An owned copy of an optional string slice.
fn opt_to_string(s: Option<&str>) -> (r: Option<String>)
    ensures
        opt_string_view(r) == opt_str_view(s),
{
    match s {
        Some(s) => Some(to_string(s)),
        None => None,
    }
}

impl LaunchRequest {
    /// A launch request with owned copies of its fields.
    pub fn new(
        cwd: &str,
        model: Option<&str>,
        effort: Option<&str>,
        permission_mode: PermissionMode,
    ) -> (r: Self)
        ensures
            r@.cwd == cwd@,
            r@.model == opt_str_view(model),
            r@.effort == opt_str_view(effort),
            r@.permission_mode == permission_mode,
    {
        LaunchRequest {
            cwd: to_string(cwd),
            model: opt_to_string(model),
            effort: opt_to_string(effort),
            permission_mode,
        }
    }
}

} // verus!
