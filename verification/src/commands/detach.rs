//! Closing the current session's client.

use vstd::prelude::*;
use crate::commands::{finish, finished, State, StateView, Step, StepView};
use crate::multiplexer::{is_success, succeeded, Request, RequestView};
use crate::protocol::{
    Action, ActionView, Failure, FailureView, Fatal, Outcome, OutcomeView,
};
use crate::text::optional_text;

verus! {

/// There was a problem detaching the client from a session.
#[derive(Clone, Copy, Debug, PartialEq, Eq)]
pub enum DetachError {
    /// The command was not given from inside a session of the multiplexer.
    NotInsideTmux,
}

/// The message that an error of detaching is reported with.
pub open spec fn detach_message(error: DetachError) -> Seq<char> {
    match error {
        DetachError::NotInsideTmux => "not inside a tmux session"@,
    }
}

impl DetachError {
    /// The message to report the error with.
    pub fn message(&self) -> (message: String)
        ensures
            message@ == detach_message(*self),
    {
        match self {
            DetachError::NotInsideTmux => "not inside a tmux session".to_owned(),
        }
    }
}

/// The first step of detaching: the marker variable is read, whose presence says that the
/// process runs inside a client of the multiplexer.
pub open spec fn begun() -> StepView {
    StepView {
        state: StateView::CheckingMarker,
        action: ActionView::ReadVariable { name: "TMUX"@ },
    }
}

/// The step after the marker variable was read: outside the multiplexer there is nothing
/// to detach, which is an error; inside, the client is detached.
pub open spec fn after_marker(value: Option<Seq<char>>) -> StepView {
    if value is Some {
        StepView {
            state: StateView::Detaching,
            action: ActionView::Multiplexer { request: RequestView::DetachClient },
        }
    } else {
        finished(OutcomeView::Failure(FailureView::Detach(DetachError::NotInsideTmux)))
    }
}

/// The step after the client was to be detached. A client that was not detached ends the
/// process.
pub open spec fn after_detaching(code: Option<i32>) -> StepView {
    if succeeded(code) {
        finished(OutcomeView::Success)
    } else {
        finished(OutcomeView::Abort(Fatal::ClientNotDetached))
    }
}

/// Starts to detach: gives the first step.
pub fn run() -> (step: Step)
    ensures
        step@ == begun(),
{
    Step { state: State::CheckingMarker, action: Action::ReadVariable { name: "TMUX".to_owned() } }
}

/// Takes the value of the marker variable.
pub fn on_marker(value: Option<String>) -> (step: Step)
    ensures
        step@ == after_marker(optional_text(value)),
{
    if value.is_some() {
        Step {
            state: State::Detaching,
            action: Action::Multiplexer { request: Request::DetachClient },
        }
    } else {
        finish(Outcome::Failure(Failure::Detach(DetachError::NotInsideTmux)))
    }
}

/// Takes the exit code of the command that detached the client.
pub fn on_detaching(code: Option<i32>) -> (step: Step)
    ensures
        step@ == after_detaching(code),
{
    if is_success(code) {
        finish(Outcome::Success)
    } else {
        finish(Outcome::Abort(Fatal::ClientNotDetached))
    }
}

} // verus!
