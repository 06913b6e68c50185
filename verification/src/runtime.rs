//! The connection details of the bundled agent server that the desktop
//! shell starts: its command line, its per-launch secret and the WebSocket
//! address the webview connects to.

use vstd::prelude::*;

use crate::services::terminal_launcher::strings_view;
use crate::text::{decimal_view, push_char, push_decimal, to_string};

verus! {

/// Where the webview reaches the agent server.
#[derive(Debug, Clone, PartialEq, Eq)]
pub struct RuntimeConnection {
    pub ws_url: String,
    pub workspace_path: String,
}

/// The length of the per-launch server secret.
pub const SECRET_LEN: usize = 48;

/// An ASCII letter or digit.
pub open spec fn is_ascii_alphanumeric(c: char) -> bool {
    ('0' <= c && c <= '9') || ('A' <= c && c <= 'Z') || ('a' <= c && c <= 'z')
}

/// `rand::distributions::Alphanumeric` sampled from the thread-local
/// generator: the crate draws from the 62 ASCII letters and digits. Which
/// one comes back is chance; that it is one of them is all that is stated.
#[verifier::external_body]
fn random_alphanumeric() -> (c: char)
    ensures
        is_ascii_alphanumeric(c),
{
    char::from(rand::Rng::sample(&mut rand::thread_rng(), rand::distributions::Alphanumeric))
}

/// A fresh server secret: 48 random ASCII letters and digits.
pub fn generate_secret() -> (r: String)
    ensures
        r@.len() == SECRET_LEN,
        forall|i: int| 0 <= i < r@.len() ==> is_ascii_alphanumeric(#[trigger] r@[i]),
{
    let mut r = String::new();
    let mut i: usize = 0;
    while i < SECRET_LEN
        invariant
            i <= SECRET_LEN,
            r@.len() == i,
            forall|k: int| 0 <= k < r@.len() ==> is_ascii_alphanumeric(#[trigger] r@[k]),
        decreases SECRET_LEN - i,
    {
        let c = random_alphanumeric();
        push_char(&mut r, c);
        i = i + 1;
    }
    r
}

/// `127.0.0.1:<port>`.
pub open spec fn loopback_address_view(port: u16) -> Seq<char> {
    "127.0.0.1:"@ + decimal_view(port as nat)
}

/// The command line of the agent server: it serves on the loopback address
/// of `port` and accepts only clients that present `secret`.
pub open spec fn agent_serve_args_view(port: u16, secret: Seq<char>) -> Seq<Seq<char>> {
    seq!["agent"@, "serve"@, "--bind"@, loopback_address_view(port), "--secret"@, secret]
}

/// The WebSocket address of the agent server, with the secret as the
/// `server-key` query parameter.
pub open spec fn ws_url_view(port: u16, secret: Seq<char>) -> Seq<char> {
    "ws://"@ + loopback_address_view(port) + "/ws?server-key="@ + secret
}

fn loopback_address(port: u16) -> (r: String)
    ensures
        r@ == loopback_address_view(port),
{
    let mut r = to_string("127.0.0.1:");
    push_decimal(&mut r, port as u64);
    r
}

/// The arguments that start the agent server.
pub fn agent_serve_args(port: u16, secret: &str) -> (r: Vec<String>)
    ensures
        strings_view(r@) == agent_serve_args_view(port, secret@),
{
    let r = vec![
        to_string("agent"),
        to_string("serve"),
        to_string("--bind"),
        loopback_address(port),
        to_string("--secret"),
        to_string(secret),
    ];
    assert(strings_view(r@) =~= agent_serve_args_view(port, secret@));
    r
}

/// The connection handed to the webview once the server was started.
pub fn runtime_connection(port: u16, secret: &str, workspace_path: &str) -> (r: RuntimeConnection)
    ensures
        r.ws_url@ == ws_url_view(port, secret@),
        r.workspace_path@ == workspace_path@,
{
    let mut ws_url = to_string("ws://");
    ws_url.append(loopback_address(port).as_str());
    ws_url.append("/ws?server-key=");
    ws_url.append(secret);
    RuntimeConnection { ws_url, workspace_path: to_string(workspace_path) }
}

/// Why the agent server could not be started or reached.
#[derive(Debug, Clone, PartialEq, Eq)]
pub enum RuntimeError {
    /// The chosen path is not a workspace directory.
    InvalidWorkspace,
    /// The runtime state cannot be locked.
    StateUnavailable,
    /// The bundled agent executable is missing; holds its path.
    AgentBinaryMissing(String),
    /// No local port could be reserved; holds the system's reason.
    PortUnavailable(String),
    /// The reserved port could not be read back; holds the system's reason.
    PortUnknown(String),
    /// The agent process could not be started; holds the system's reason.
    SpawnFailed(String),
}

/// The text shown for a [`RuntimeError`].
pub open spec fn runtime_error_message(e: RuntimeError) -> Seq<char> {
    match e {
        RuntimeError::InvalidWorkspace => "所选路径不是有效的工作目录。"@,
        RuntimeError::StateUnavailable => "运行时状态不可用。"@,
        RuntimeError::AgentBinaryMissing(path) => "未找到内置智能体程序："@ + path@,
        RuntimeError::PortUnavailable(reason) => "无法分配本地端口："@ + reason@,
        RuntimeError::PortUnknown(reason) => reason@,
        RuntimeError::SpawnFailed(reason) => "无法启动智能体："@ + reason@,
    }
}

impl RuntimeError {
    /// The message shown to the user.
    pub fn message(&self) -> (r: String)
        ensures
            r@ == runtime_error_message(*self),
    {
        match self {
            RuntimeError::InvalidWorkspace => to_string("所选路径不是有效的工作目录。"),
            RuntimeError::StateUnavailable => to_string("运行时状态不可用。"),
            RuntimeError::AgentBinaryMissing(path) => {
                let mut r = to_string("未找到内置智能体程序：");
                r.append(path.as_str());
                r
            },
            RuntimeError::PortUnavailable(reason) => {
                let mut r = to_string("无法分配本地端口：");
                r.append(reason.as_str());
                r
            },
            RuntimeError::PortUnknown(reason) => to_string(reason.as_str()),
            RuntimeError::SpawnFailed(reason) => {
                let mut r = to_string("无法启动智能体：");
                r.append(reason.as_str());
                r
            },
        }
    }
}

} // verus!
