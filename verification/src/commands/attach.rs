//! Opening a session: from the search path to the client that is attached.

use vstd::prelude::*;
use crate::bootstrap::{resolve, resolving};
use crate::commands::{finish, finished, State, StateView, Step, StepView};
use crate::multiplexer::{is_absent, is_success, reports_absent, succeeded, Request, RequestView};
use crate::protocol::{Action, ActionView, Fatal, Outcome, OutcomeView};
use crate::text::optional_text;

verus! {

/// The arguments of the command that opens a session.
#[derive(Clone, Debug, PartialEq, Eq)]
pub struct Args {
    /// The query that the finder starts with.
    pub query: String,
}

/// There was a problem attaching the client to a session.
#[derive(Clone, Debug, PartialEq, Eq)]
pub enum AttachError {
    /// A root of the search path does not exist or is not a directory.
    InvalidPath(String),
    /// A root of the search path could not be listed; the text says why.
    ReadDirError(String),
}

/// An error of attaching over texts.
pub enum AttachErrorView {
    InvalidPath(Seq<char>),
    ReadDirError(Seq<char>),
}

impl View for AttachError {
    type V = AttachErrorView;

    open spec fn view(&self) -> AttachErrorView {
        match self {
            AttachError::InvalidPath(path) => AttachErrorView::InvalidPath(path@),
            AttachError::ReadDirError(reason) => AttachErrorView::ReadDirError(reason@),
        }
    }
}

/// The message that an error of attaching is reported with.
pub open spec fn attach_message(error: AttachErrorView) -> Seq<char> {
    match error {
        AttachErrorView::InvalidPath(path) => "expected path to be a directory: "@ + path,
        AttachErrorView::ReadDirError(reason) => "failed to read directory contents: "@ + reason,
    }
}

impl AttachError {
    /// The message to report the error with.
    pub fn message(&self) -> (message: String)
        ensures
            message@ == attach_message(self@),
    {
        match self {
            AttachError::InvalidPath(path) => {
                let mut message = "expected path to be a directory: ".to_owned();
                message.append(path.as_str());
                message
            },
            AttachError::ReadDirError(reason) => {
                let mut message = "failed to read directory contents: ".to_owned();
                message.append(reason.as_str());
                message
            },
        }
    }
}

/// The first step of attaching: the search path is read.
pub open spec fn begun(query: Seq<char>) -> StepView {
    StepView {
        state: StateView::ReadingSearchPath { query },
        action: ActionView::ReadVariable { name: "ORBIT_PATH"@ },
    }
}

/// The step that leads to the session once it exists: the marker variable is read, whose
/// presence says that the process runs inside a client of the multiplexer.
pub open spec fn connecting(session: Seq<char>) -> StepView {
    StepView {
        state: StateView::ReadingMarker { session },
        action: ActionView::ReadVariable { name: "TMUX"@ },
    }
}

/// The step after the multiplexer was asked for the session. A session that does not exist
/// is created, detached and rooted at the directory; an existing one is connected to as it
/// is.
pub open spec fn after_query(
    session: Seq<char>,
    directory: Seq<char>,
    code: Option<i32>,
) -> StepView {
    if reports_absent(code) {
        StepView {
            state: StateView::Creating { session, directory },
            action: ActionView::Multiplexer {
                request: RequestView::NewSession { name: session, directory },
            },
        }
    } else {
        connecting(session)
    }
}

/// The step after the session was to be created. The new session gets its bootstrap script;
/// a session that was not created ends the process.
pub open spec fn after_creation(
    session: Seq<char>,
    directory: Seq<char>,
    code: Option<i32>,
) -> StepView {
    if succeeded(code) {
        resolving(session, directory)
    } else {
        finished(OutcomeView::Abort(Fatal::SessionNotCreated))
    }
}

/// The step after the bootstrap command was typed into the session.
pub open spec fn after_injection(session: Seq<char>, code: Option<i32>) -> StepView {
    if succeeded(code) {
        connecting(session)
    } else {
        finished(OutcomeView::Abort(Fatal::ScriptNotRun))
    }
}

/// The step after the marker variable was read. Inside a client of the multiplexer that
/// client is switched to the session; outside, a new client is attached.
pub open spec fn after_marker(session: Seq<char>, value: Option<Seq<char>>) -> StepView {
    StepView {
        state: StateView::Connecting,
        action: ActionView::Multiplexer {
            request: if value is Some {
                RequestView::SwitchClient { name: session }
            } else {
                RequestView::AttachSession { name: session }
            },
        },
    }
}

/// The step after the client came back: the operation is done, however the client ended.
pub open spec fn after_connection() -> StepView {
    finished(OutcomeView::Success)
}

/// Starts to attach: gives the first step.
pub fn run(args: &Args) -> (step: Step)
    ensures
        step@ == begun(args.query@),
{
    Step {
        state: State::ReadingSearchPath { query: args.query.clone() },
        action: Action::ReadVariable { name: "ORBIT_PATH".to_owned() },
    }
}

/// Reads the marker variable on the way to the session.
pub fn connect(session: String) -> (step: Step)
    ensures
        step@ == connecting(session@),
{
    Step {
        state: State::ReadingMarker { session },
        action: Action::ReadVariable { name: "TMUX".to_owned() },
    }
}

/// Takes the exit code of the session query.
pub fn on_query(session: String, directory: String, code: Option<i32>) -> (step: Step)
    ensures
        step@ == after_query(session@, directory@, code),
{
    if is_absent(code) {
        Step {
            state: State::Creating { session: session.clone(), directory: directory.clone() },
            action: Action::Multiplexer { request: Request::NewSession { name: session, directory } },
        }
    } else {
        connect(session)
    }
}

/// Takes the exit code of the creation of the session.
pub fn on_creation(session: String, directory: String, code: Option<i32>) -> (step: Step)
    ensures
        step@ == after_creation(session@, directory@, code),
{
    if is_success(code) {
        resolve(session, directory.as_str())
    } else {
        finish(Outcome::Abort(Fatal::SessionNotCreated))
    }
}

/// Takes the exit code of the command that typed the bootstrap command.
pub fn on_injection(session: String, code: Option<i32>) -> (step: Step)
    ensures
        step@ == after_injection(session@, code),
{
    if is_success(code) {
        connect(session)
    } else {
        finish(Outcome::Abort(Fatal::ScriptNotRun))
    }
}

/// Takes the value of the marker variable.
pub fn on_marker(session: String, value: Option<String>) -> (step: Step)
    ensures
        step@ == after_marker(session@, optional_text(value)),
{
    let request = if value.is_some() {
        Request::SwitchClient { name: session }
    } else {
        Request::AttachSession { name: session }
    };
    Step { state: State::Connecting, action: Action::Multiplexer { request } }
}

/// Takes the return of the client.
pub fn on_connection() -> (step: Step)
    ensures
        step@ == after_connection(),
{
    finish(Outcome::Success)
}

} // verus!
