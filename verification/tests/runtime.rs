use xai_grok_desktop::runtime::{
    agent_serve_args, generate_secret, runtime_connection, RuntimeError, SECRET_LEN,
};

#[test]
fn agent_server_binds_to_loopback_with_its_secret() {
    assert_eq!(
        agent_serve_args(43123, "s3cret"),
        vec!["agent", "serve", "--bind", "127.0.0.1:43123", "--secret", "s3cret"]
    );
    assert_eq!(agent_serve_args(0, "x")[3], "127.0.0.1:0");
}

#[test]
fn connection_carries_the_secret_as_server_key() {
    let connection = runtime_connection(5000, "abc", "/home/u/project");
    assert_eq!(connection.ws_url, "ws://127.0.0.1:5000/ws?server-key=abc");
    assert_eq!(connection.workspace_path, "/home/u/project");
}

#[test]
fn secrets_are_48_ascii_alphanumerics() {
    let a = generate_secret();
    let b = generate_secret();
    assert_eq!(SECRET_LEN, 48);
    assert_eq!(a.chars().count(), 48);
    assert!(a.chars().all(|c| c.is_ascii_alphanumeric()));
    assert!(b.chars().all(|c| c.is_ascii_alphanumeric()));
    assert_ne!(a, b);
}

#[test]
fn runtime_errors_have_their_messages() {
    assert_eq!(RuntimeError::InvalidWorkspace.message(), "所选路径不是有效的工作目录。");
    assert_eq!(RuntimeError::StateUnavailable.message(), "运行时状态不可用。");
    assert_eq!(
        RuntimeError::AgentBinaryMissing("C:/app/resources/grok.exe".to_owned()).message(),
        "未找到内置智能体程序：C:/app/resources/grok.exe"
    );
    assert_eq!(
        RuntimeError::PortUnavailable("denied".to_owned()).message(),
        "无法分配本地端口：denied"
    );
    assert_eq!(RuntimeError::PortUnknown("gone".to_owned()).message(), "gone");
    assert_eq!(
        RuntimeError::SpawnFailed("no such file".to_owned()).message(),
        "无法启动智能体：no such file"
    );
}
