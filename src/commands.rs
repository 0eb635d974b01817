use vstd::prelude::*;

use crate::gateway::{agent_command, agent_command_spec, TmuxOp};
use crate::text::opt_chars;

verus! {

/// What can go wrong in a lifecycle command.
#[derive(Debug)]
pub enum SessionError {
    /// The named session does not exist.
    NotFound(String),
    /// The multiplexer's control program failed, was absent, or refused.
    Gateway(String),
    /// Pane content could not be read although the session exists.
    Capture(String),
}

/// Whether `r` is the `NotFound` error for `session`.
pub open spec fn is_not_found<T>(r: Result<T, SessionError>, session: Seq<char>) -> bool {
    r is Err && r->Err_0 is NotFound && r->Err_0->NotFound_0@ == session
}

/// The message shown for an error.
pub open spec fn error_message(e: SessionError) -> Seq<char> {
    match e {
        SessionError::NotFound(s) => "Session '"@ + s@ + "' does not exist"@,
        SessionError::Gateway(m) => m@,
        SessionError::Capture(m) => "Could not capture output: "@ + m@,
    }
}

impl SessionError {
    /// A one-line message for the user.
    pub fn message(&self) -> (r: String)
        ensures
            r@ == error_message(*self),
    {
        match self {
            SessionError::NotFound(s) => String::from_str("Session '").concat(s.as_str()).concat(
                "' does not exist",
            ),
            SessionError::Gateway(m) => String::from_str(m.as_str()),
            SessionError::Capture(m) => String::from_str("Could not capture output: ").concat(
                m.as_str(),
            ),
        }
    }
}

/// Fails with `NotFound` unless the session exists.
pub fn require_session(session: &str, exists: bool) -> (r: Result<(), SessionError>)
    ensures
        r is Ok <==> exists,
        !exists ==> is_not_found(r, session@),
{
    if exists {
        Ok(())
    } else {
        Err(SessionError::NotFound(String::from_str(session)))
    }
}

/// The two invocations that start a session: creating it must succeed;
/// letting its program rename the pane is best effort.
#[derive(Debug)]
pub struct StartPlan {
    pub create: TmuxOp,
    pub allow_rename: TmuxOp,
}

/// The arguments that create session `name` running `program` on `prompt`.
pub open spec fn create_args(
    name: Seq<char>,
    program: Seq<char>,
    prompt: Seq<char>,
    cwd: Option<Seq<char>>,
) -> Seq<Seq<char>> {
    match cwd {
        Some(d) => seq![
            "new-session"@,
            "-d"@,
            "-s"@,
            name,
            "-c"@,
            d,
            agent_command_spec(program, prompt),
        ],
        None => seq!["new-session"@, "-d"@, "-s"@, name, agent_command_spec(program, prompt)],
    }
}

/// Starts session `session_name` (a freshly generated name) running the agent
/// program `agent` on `prompt`, in `cwd` where one is given.
pub fn cmd_start(session_name: &str, agent: &str, prompt: &str, cwd: Option<&str>) -> (r:
    StartPlan)
    ensures
        r.create.spec_args() == create_args(session_name@, agent@, prompt@, opt_chars(cwd)),
        r.allow_rename.spec_args() == seq![
            "set-option"@,
            "-t"@,
            session_name@,
            "allow-rename"@,
            "on"@,
        ],
{
    let command = agent_command(agent, prompt);
    let dir = match cwd {
        Some(d) => Some(String::from_str(d)),
        None => None,
    };
    StartPlan {
        create: TmuxOp::NewSession { name: String::from_str(session_name), command, cwd: dir },
        allow_rename: TmuxOp::AllowRename { name: String::from_str(session_name) },
    }
}

/// Stops a session: `NotFound` where it does not exist, and then nothing is
/// to be killed; otherwise the kill invocation.
pub fn cmd_stop(session: &str, exists: bool) -> (r: Result<TmuxOp, SessionError>)
    ensures
        r is Ok <==> exists,
        !exists ==> is_not_found(r, session@),
        exists ==> r->Ok_0.spec_args() == seq!["kill-session"@, "-t"@, session@],
{
    require_session(session, exists)?;
    Ok(TmuxOp::KillSession { name: String::from_str(session) })
}

/// Attaches to a session: `NotFound` where it does not exist, otherwise the
/// attach invocation, which takes the terminal over.
pub fn cmd_attach(session: &str, exists: bool) -> (r: Result<TmuxOp, SessionError>)
    ensures
        r is Ok <==> exists,
        !exists ==> is_not_found(r, session@),
        exists ==> r->Ok_0.spec_args() == seq!["attach-session"@, "-t"@, session@],
{
    require_session(session, exists)?;
    Ok(TmuxOp::AttachSession { name: String::from_str(session) })
}

/// Sends a message to a session: `NotFound` where it does not exist,
/// otherwise the invocations that type `message` literally and then press
/// Enter.
pub fn cmd_send(session: &str, message: &str, exists: bool) -> (r: Result<
    (TmuxOp, TmuxOp),
    SessionError,
>)
    ensures
        r is Ok <==> exists,
        !exists ==> is_not_found(r, session@),
        exists ==> r->Ok_0.0.spec_args() == seq![
            "send-keys"@,
            "-t"@,
            session@,
            "-l"@,
            message@,
        ],
        exists ==> r->Ok_0.1.spec_args() == seq!["send-keys"@, "-t"@, session@, "Enter"@],
{
    require_session(session, exists)?;
    Ok(
        (
            TmuxOp::SendText { name: String::from_str(session), text: String::from_str(message) },
            TmuxOp::SendEnter { name: String::from_str(session) },
        ),
    )
}

} // verus!
