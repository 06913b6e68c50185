//! The bookkeeping of the shared session service: which chat sessions were
//! started, and which messages may be forwarded to the agent.
//!
//! The agent connection itself (starting a session, delivering a message)
//! is asynchronous outside work; the service consults these decisions
//! before each call and records what the agent answered.

use vstd::prelude::*;

use crate::services::terminal_launcher::strings_view;
use crate::text::{is_blank, is_blank_str, str_equal, to_string};

verus! {

/// Why a session request was refused.
#[derive(Debug, Clone, Copy, PartialEq, Eq)]
pub enum SessionError {
    /// The requested workspace is not an existing directory.
    WorkspaceMissing,
    /// The session id or the message holds nothing but whitespace.
    EmptyInput,
    /// No session with this id was started.
    UnknownSession,
}

impl SessionError {
    /// The message reported to the caller.
    pub fn message(&self) -> (r: &'static str)
        ensures
            r@ == session_error_message(*self),
    {
        match self {
            SessionError::WorkspaceMissing => "workspace directory does not exist",
            SessionError::EmptyInput => "session id and message cannot be empty",
            SessionError::UnknownSession => "unknown session",
        }
    }
}

/// The text of a [`SessionError`].
pub open spec fn session_error_message(e: SessionError) -> Seq<char> {
    match e {
        SessionError::WorkspaceMissing => "workspace directory does not exist"@,
        SessionError::EmptyInput => "session id and message cannot be empty"@,
        SessionError::UnknownSession => "unknown session"@,
    }
}

/// Whether a message may be forwarded: both fields must hold text, and the
/// session must have been started.
pub open spec fn message_check_view(
    sessions: Seq<Seq<char>>,
    session_id: Seq<char>,
    message: Seq<char>,
) -> Result<(), SessionError> {
    if is_blank(session_id) || is_blank(message) {
        Err(SessionError::EmptyInput)
    } else if !sessions.contains(session_id) {
        Err(SessionError::UnknownSession)
    } else {
        Ok(())
    }
}

/// The ids of the started sessions, in the order they were started.
pub struct SessionRegistry {
    sessions: Vec<String>,
}

impl View for SessionRegistry {
    type V = Seq<Seq<char>>;

    closed spec fn view(&self) -> Seq<Seq<char>> {
        strings_view(self.sessions@)
    }
}

impl SessionRegistry {
    /// No session started yet.
    pub fn new() -> (r: Self)
        ensures
            r@ == Seq::<Seq<char>>::empty(),
    {
        let r = SessionRegistry { sessions: Vec::new() };
        assert(r@ =~= Seq::<Seq<char>>::empty());
        r
    }

    /// A session may only be started in an existing directory.
    pub fn check_workspace(is_directory: bool) -> (r: Result<(), SessionError>)
        ensures
            r == (if is_directory {
                Ok(())
            } else {
                Err(SessionError::WorkspaceMissing)
            }),
    {
        if is_directory {
            Ok(())
        } else {
            Err(SessionError::WorkspaceMissing)
        }
    }

    /// Records a session the agent started.
    pub fn record_session(&mut self, session_id: String)
        ensures
            final(self)@ == old(self)@.push(session_id@),
    {
        let ghost before = self@;
        self.sessions.push(session_id);
        assert(self@ =~= before.push(session_id@));
    }

    /// Whether a session with this id was started.
    pub fn contains(&self, session_id: &str) -> (r: bool)
        ensures
            r == self@.contains(session_id@),
    {
        let n = self.sessions.len();
        let mut i: usize = 0;
        while i < n
            invariant
                n == self.sessions@.len(),
                n == self@.len(),
                i <= n,
                forall|k: int| 0 <= k < i ==> self@[k] != session_id@,
            decreases n - i,
        {
            if str_equal(self.sessions[i].as_str(), session_id) {
                assert(self@[i as int] == session_id@);
                return true;
            }
            i = i + 1;
        }
        false
    }

    /// Decides whether a message may be forwarded to the agent.
    pub fn check_message(&self, session_id: &str, message: &str) -> (r: Result<(), SessionError>)
        ensures
            r == message_check_view(self@, session_id@, message@),
    {
        if is_blank_str(session_id) || is_blank_str(message) {
            return Err(SessionError::EmptyInput);
        }
        if !self.contains(session_id) {
            return Err(SessionError::UnknownSession);
        }
        Ok(())
    }

    /// The ids of the started sessions, in start order.
    pub fn list_sessions(&self) -> (r: Vec<String>)
        ensures
            strings_view(r@) == self@,
    {
        let n = self.sessions.len();
        let mut r: Vec<String> = Vec::new();
        let mut i: usize = 0;
        while i < n
            invariant
                n == self.sessions@.len(),
                i <= n,
                strings_view(r@) == self@.take(i as int),
            decreases n - i,
        {
            r.push(to_string(self.sessions[i].as_str()));
            assert(self@.take(i + 1) =~= self@.take(i as int).push(self@[i as int]));
            assert(strings_view(r@) =~= self@.take(i as int).push(self@[i as int]));
            i = i + 1;
        }
        assert(self@.take(n as int) =~= self@);
        r
    }
}

/// A session that was recorded accepts every message with text in it, and
/// the sessions recorded before stay known.
pub proof fn lemma_recorded_session_accepts_messages(
    sessions: Seq<Seq<char>>,
    session_id: Seq<char>,
    message: Seq<char>,
)
    requires
        !is_blank(session_id),
        !is_blank(message),
    ensures
        message_check_view(sessions.push(session_id), session_id, message) == Ok::<(), SessionError>(()),
{
    assert(sessions.push(session_id)[sessions.len() as int] == session_id);
}

/// A blank message or a blank session id is always refused as empty input,
/// whatever sessions were started, and so is never forwarded.
pub proof fn lemma_blank_input_is_refused(
    sessions: Seq<Seq<char>>,
    session_id: Seq<char>,
    message: Seq<char>,
)
    ensures
        is_blank(message) ==> message_check_view(sessions, session_id, message) == Err::<
            (),
            SessionError,
        >(SessionError::EmptyInput),
        is_blank(session_id) ==> message_check_view(sessions, session_id, message) == Err::<
            (),
            SessionError,
        >(SessionError::EmptyInput),
        message_check_view(sessions, session_id, message) is Ok ==> !is_blank(message) && sessions.contains(
            session_id,
        ),
{
}

} // verus!
