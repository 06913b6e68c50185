//! The shell-free terminal handoff: the argument vector for the sibling
//! terminal executable, built from a validated launch request.
//!
//! The file-system probes (canonicalizing the workspace, checking that it is
//! a directory, locating the desktop executable) are made by the caller and
//! handed in; everything decided from them is here.

use vstd::prelude::*;

use crate::domain::terminal_launch::{LaunchRequest, LaunchRequestView, PermissionMode, TerminalLaunchSpec};
use crate::text::{is_blank, is_blank_str, to_string};

verus! {

/// What probing the requested workspace found.
#[derive(Debug, Clone, PartialEq, Eq)]
pub enum WorkspaceProbe {
    /// The path could not be canonicalized (missing or inaccessible).
    Unreachable,
    /// The canonical path exists but is not a directory.
    NotADirectory(String),
    /// The canonical path of an existing directory.
    Directory(String),
}

/// Where the terminal executable was looked for.
#[derive(Debug, Clone, PartialEq, Eq)]
pub enum ProgramLocation {
    /// The path of the terminal executable beside the desktop executable.
    Found(String),
    /// The desktop executable's own path could not be determined.
    DesktopPathUnknown,
    /// The desktop executable's path has no parent directory.
    NoParentDirectory,
}

/// Why a terminal handoff was refused.
#[derive(Debug, Clone, PartialEq, Eq)]
pub enum LaunchError {
    WorkspaceUnreachable(String),
    NotADirectory(String),
    DesktopPathUnknown,
    NoParentDirectory,
}

impl LaunchError {
    /// The message shown to the user.
    pub fn message(&self) -> (r: String)
        ensures
            r@ == launch_error_message(*self),
    {
        match self {
            LaunchError::WorkspaceUnreachable(path) => {
                let mut r = to_string("工作目录不存在或无法访问：");
                r.append(path.as_str());
                r
            },
            LaunchError::NotADirectory(path) => {
                let mut r = to_string("工作目录不是文件夹：");
                r.append(path.as_str());
                r
            },
            LaunchError::DesktopPathUnknown => to_string("无法定位桌面程序路径"),
            LaunchError::NoParentDirectory => to_string("桌面程序路径不包含目录"),
        }
    }
}

/// The user-facing text of a [`LaunchError`].
pub open spec fn launch_error_message(e: LaunchError) -> Seq<char> {
    match e {
        LaunchError::WorkspaceUnreachable(path) => "工作目录不存在或无法访问："@ + path@,
        LaunchError::NotADirectory(path) => "工作目录不是文件夹："@ + path@,
        LaunchError::DesktopPathUnknown => "无法定位桌面程序路径"@,
        LaunchError::NoParentDirectory => "桌面程序路径不包含目录"@,
    }
}

/// An optional value that was given and is more than whitespace.
pub open spec fn given(v: Option<Seq<char>>) -> bool {
    v is Some && !is_blank(v->0)
}

/// The flag pair for an optional value, or nothing when it is absent or blank.
pub open spec fn flag_view(flag: Seq<char>, v: Option<Seq<char>>) -> Seq<Seq<char>> {
    if given(v) {
        seq![flag, v->0]
    } else {
        Seq::empty()
    }
}

/// The argument vector of the terminal executable: the canonical workspace,
/// then the model and the reasoning effort when given, then the explicit
/// always-approve flag when (and only when) that mode was chosen.
pub open spec fn launch_args_view(cwd: Seq<char>, request: LaunchRequestView) -> Seq<Seq<char>> {
    seq!["--cwd"@, cwd] + flag_view("--model"@, request.model) + flag_view(
        "--reasoning-effort"@,
        request.effort,
    ) + if request.permission_mode == PermissionMode::AlwaysApprove {
        seq!["--always-approve"@]
    } else {
        Seq::empty()
    }
}

/// The abstract value of a string vector.
pub open spec fn strings_view(v: Seq<String>) -> Seq<Seq<char>> {
    v.map_values(|s: String| s@)
}

/// The file name of the terminal executable.
pub fn terminal_binary_name(windows: bool) -> (r: &'static str)
    ensures
        r@ == (if windows {
            "xai-grok-pager.exe"@
        } else {
            "xai-grok-pager"@
        }),
{
    if windows {
        "xai-grok-pager.exe"
    } else {
        "xai-grok-pager"
    }
}

fn push_flag(args: &mut Vec<String>, flag: &str, value: &Option<String>)
    ensures
        strings_view(final(args)@) == strings_view(old(args)@) + flag_view(
            flag@,
            crate::domain::chat::opt_string_view(*value),
        ),
{
    let ghost before = strings_view(args@);
    match value {
        Some(v) => {
            if !is_blank_str(v.as_str()) {
                args.push(to_string(flag));
                args.push(v.clone());
                assert(strings_view(args@) =~= before + seq![flag@, v@]);
            } else {
                assert(strings_view(args@) =~= before + Seq::<Seq<char>>::empty());
            }
        },
        None => {
            assert(strings_view(args@) =~= before + Seq::<Seq<char>>::empty());
        },
    }
}

/// The arguments for launching the terminal in the canonical workspace `cwd`.
pub fn launch_args(cwd: &str, request: &LaunchRequest) -> (r: Vec<String>)
    ensures
        strings_view(r@) == launch_args_view(cwd@, request@),
{
    let mut args: Vec<String> = Vec::new();
    args.push(to_string("--cwd"));
    args.push(to_string(cwd));
    assert(strings_view(args@) =~= seq!["--cwd"@, cwd@]);
    push_flag(&mut args, "--model", &request.model);
    push_flag(&mut args, "--reasoning-effort", &request.effort);
    let ghost before = strings_view(args@);
    match request.permission_mode {
        PermissionMode::AlwaysApprove => {
            args.push(to_string("--always-approve"));
            assert(strings_view(args@) =~= before + seq!["--always-approve"@]);
        },
        _ => {
            assert(strings_view(args@) =~= before + Seq::<Seq<char>>::empty());
        },
    }
    args
}

/// Resolves a terminal handoff. The workspace must have been found and be a
/// directory, and the terminal executable located; the program then runs in
/// the canonical workspace with [`launch_args_view`] as its arguments.
pub fn build_launch_spec(
    request: LaunchRequest,
    workspace: WorkspaceProbe,
    program: ProgramLocation,
) -> (r: Result<TerminalLaunchSpec, LaunchError>)
    ensures
        match workspace {
            WorkspaceProbe::Unreachable => r == Err::<TerminalLaunchSpec, LaunchError>(
                LaunchError::WorkspaceUnreachable(request.cwd),
            ),
            WorkspaceProbe::NotADirectory(p) => r == Err::<TerminalLaunchSpec, LaunchError>(
                LaunchError::NotADirectory(p),
            ),
            WorkspaceProbe::Directory(cwd) => match program {
                ProgramLocation::DesktopPathUnknown => r == Err::<
                    TerminalLaunchSpec,
                    LaunchError,
                >(LaunchError::DesktopPathUnknown),
                ProgramLocation::NoParentDirectory => r == Err::<
                    TerminalLaunchSpec,
                    LaunchError,
                >(LaunchError::NoParentDirectory),
                ProgramLocation::Found(p) => r is Ok && r->Ok_0.program == p && r->Ok_0.cwd
                    == cwd && strings_view(r->Ok_0.args@) == launch_args_view(cwd@, request@),
            },
        },
{
    let cwd = match workspace {
        WorkspaceProbe::Unreachable => {
            return Err(LaunchError::WorkspaceUnreachable(request.cwd));
        },
        WorkspaceProbe::NotADirectory(p) => {
            return Err(LaunchError::NotADirectory(p));
        },
        WorkspaceProbe::Directory(cwd) => cwd,
    };
    let program = match program {
        ProgramLocation::Found(p) => p,
        ProgramLocation::DesktopPathUnknown => {
            return Err(LaunchError::DesktopPathUnknown);
        },
        ProgramLocation::NoParentDirectory => {
            return Err(LaunchError::NoParentDirectory);
        },
    };
    let args = launch_args(cwd.as_str(), &request);
    Ok(TerminalLaunchSpec { program, cwd, args })
}

/// The permission mode changes the command line in one way only: the
/// always-approve mode appends the explicit `--always-approve` flag to the
/// arguments the other modes produce; no other mode adds anything.
pub proof fn lemma_permission_mode_only_adds_explicit_flag(
    cwd: Seq<char>,
    request: LaunchRequestView,
)
    ensures
        ({
            let ask = LaunchRequestView { permission_mode: PermissionMode::Ask, ..request };
            let auto = LaunchRequestView { permission_mode: PermissionMode::Auto, ..request };
            let always = LaunchRequestView {
                permission_mode: PermissionMode::AlwaysApprove,
                ..request
            };
            &&& launch_args_view(cwd, auto) == launch_args_view(cwd, ask)
            &&& launch_args_view(cwd, always) == launch_args_view(cwd, ask).push(
                "--always-approve"@,
            )
        }),
        launch_args_view(cwd, request)[0] == "--cwd"@,
        launch_args_view(cwd, request)[1] == cwd,
{
    let ask = LaunchRequestView { permission_mode: PermissionMode::Ask, ..request };
    let always = LaunchRequestView { permission_mode: PermissionMode::AlwaysApprove, ..request };
    assert(launch_args_view(cwd, always) =~= launch_args_view(cwd, ask).push("--always-approve"@));
    let auto = LaunchRequestView { permission_mode: PermissionMode::Auto, ..request };
    assert(launch_args_view(cwd, auto) =~= launch_args_view(cwd, ask));
}

/// Each optional flag depends on its own value alone: a model that is given
/// and not blank is passed as `--model <model>` right after the workspace,
/// and an effort that is given and not blank is passed as
/// `--reasoning-effort <effort>`, whatever the model is.
pub proof fn lemma_each_given_value_is_passed(cwd: Seq<char>, request: LaunchRequestView)
    ensures
        ({
            let args = launch_args_view(cwd, request);
            &&& request.model is Some && !is_blank(request.model->0) ==> args.len() >= 4
                && args[2] == "--model"@ && args[3] == request.model->0
            &&& request.effort is Some && !is_blank(request.effort->0) ==> exists|i: int|
                2 <= i && i + 1 < args.len() && #[trigger] args[i] == "--reasoning-effort"@
                    && args[i + 1] == request.effort->0
        }),
{
    let args = launch_args_view(cwd, request);
    let m = flag_view("--model"@, request.model);
    if request.effort is Some && !is_blank(request.effort->0) {
        let i = 2 + m.len() as int;
        assert(args[i] == "--reasoning-effort"@);
        assert(args[i + 1] == request.effort->0);
    }
}

} // verus!
