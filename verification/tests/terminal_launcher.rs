use xai_grok_desktop::domain::terminal_launch::{LaunchRequest, PermissionMode};
use xai_grok_desktop::services::terminal_launcher::{
    build_launch_spec, launch_args, terminal_binary_name, LaunchError, ProgramLocation,
    WorkspaceProbe,
};

/// Probes a workspace path the way the desktop shell does before a handoff.
fn probe(path: &str) -> WorkspaceProbe {
    match dunce::canonicalize(path) {
        Ok(p) => {
            let shown = p.to_string_lossy().into_owned();
            if p.is_dir() {
                WorkspaceProbe::Directory(shown)
            } else {
                WorkspaceProbe::NotADirectory(shown)
            }
        }
        Err(_) => WorkspaceProbe::Unreachable,
    }
}

fn sibling_program() -> ProgramLocation {
    ProgramLocation::Found(format!("/opt/grok/{}", terminal_binary_name(false)))
}

#[test]
fn creates_argument_vector_not_shell_text() {
    let request = LaunchRequest::new(".", Some("grok-build"), Some("high"), PermissionMode::Ask);

    let spec = build_launch_spec(request, probe("."), sibling_program()).unwrap();

    assert_eq!(
        spec.args,
        vec![
            "--cwd",
            spec.cwd.as_str(),
            "--model",
            "grok-build",
            "--reasoning-effort",
            "high",
        ]
    );
    assert_ne!(spec.program, "cmd.exe");
}

#[test]
fn invalid_directory_is_rejected() {
    let request = LaunchRequest::new(
        "Z:/grok-desktop-missing-directory",
        None,
        None,
        PermissionMode::Ask,
    );
    let workspace = probe("Z:/grok-desktop-missing-directory");

    assert!(build_launch_spec(request, workspace, sibling_program()).is_err());
}

#[test]
fn always_approve_is_an_explicit_flag() {
    let request = LaunchRequest::new(".", None, None, PermissionMode::AlwaysApprove);

    let spec = build_launch_spec(request, probe("."), sibling_program()).unwrap();

    assert_eq!(spec.args.last(), Some(&"--always-approve".to_owned()));
}

#[test]
fn unreachable_workspace_reports_the_requested_path() {
    let request = LaunchRequest::new("Z:/missing", None, None, PermissionMode::Ask);
    let err = build_launch_spec(request, WorkspaceProbe::Unreachable, sibling_program())
        .unwrap_err();
    assert_eq!(err, LaunchError::WorkspaceUnreachable("Z:/missing".to_owned()));
    assert_eq!(err.message(), "工作目录不存在或无法访问：Z:/missing");
}

#[test]
fn a_file_is_not_a_workspace() {
    let request = LaunchRequest::new("notes.txt", None, None, PermissionMode::Ask);
    let err = build_launch_spec(
        request,
        WorkspaceProbe::NotADirectory("/home/u/notes.txt".to_owned()),
        sibling_program(),
    )
    .unwrap_err();
    assert_eq!(err, LaunchError::NotADirectory("/home/u/notes.txt".to_owned()));
    assert_eq!(err.message(), "工作目录不是文件夹：/home/u/notes.txt");
}

#[test]
fn missing_desktop_path_is_reported_after_the_workspace_check() {
    let request = LaunchRequest::new("/w", None, None, PermissionMode::Ask);
    let err = build_launch_spec(
        request.clone(),
        WorkspaceProbe::Directory("/w".to_owned()),
        ProgramLocation::DesktopPathUnknown,
    )
    .unwrap_err();
    assert_eq!(err, LaunchError::DesktopPathUnknown);
    assert_eq!(err.message(), "无法定位桌面程序路径");

    let err = build_launch_spec(
        request.clone(),
        WorkspaceProbe::Directory("/w".to_owned()),
        ProgramLocation::NoParentDirectory,
    )
    .unwrap_err();
    assert_eq!(err, LaunchError::NoParentDirectory);
    assert_eq!(err.message(), "桌面程序路径不包含目录");

    // A bad workspace is reported first.
    let err = build_launch_spec(
        request,
        WorkspaceProbe::Unreachable,
        ProgramLocation::DesktopPathUnknown,
    )
    .unwrap_err();
    assert_eq!(err, LaunchError::WorkspaceUnreachable("/w".to_owned()));
}

#[test]
fn blank_model_and_effort_are_left_out() {
    let request = LaunchRequest::new("/w", Some("  "), Some(""), PermissionMode::Auto);
    let spec = build_launch_spec(
        request,
        WorkspaceProbe::Directory("/canonical/w".to_owned()),
        ProgramLocation::Found("/opt/grok/xai-grok-pager".to_owned()),
    )
    .unwrap();
    assert_eq!(spec.program, "/opt/grok/xai-grok-pager");
    assert_eq!(spec.cwd, "/canonical/w");
    assert_eq!(spec.args, vec!["--cwd", "/canonical/w"]);
}

#[test]
fn model_value_is_passed_as_given() {
    let request = LaunchRequest::new("/w", Some(" grok-4 "), None, PermissionMode::AlwaysApprove);
    let args = launch_args("/c", &request);
    assert_eq!(args, vec!["--cwd", "/c", "--model", " grok-4 ", "--always-approve"]);
}

#[test]
fn permission_modes_differ_only_by_the_explicit_flag() {
    let ask = launch_args("/c", &LaunchRequest::new("/w", Some("m"), Some("low"), PermissionMode::Ask));
    let auto = launch_args("/c", &LaunchRequest::new("/w", Some("m"), Some("low"), PermissionMode::Auto));
    let always = launch_args(
        "/c",
        &LaunchRequest::new("/w", Some("m"), Some("low"), PermissionMode::AlwaysApprove),
    );
    assert_eq!(ask, auto);
    let mut expected = ask.clone();
    expected.push("--always-approve".to_owned());
    assert_eq!(always, expected);
}

#[test]
fn terminal_binary_has_the_platform_extension() {
    assert_eq!(terminal_binary_name(true), "xai-grok-pager.exe");
    assert_eq!(terminal_binary_name(false), "xai-grok-pager");
}
