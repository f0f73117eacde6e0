//! Initializing a project: the current directory gets a bootstrap script of its own, unless
//! it has one.

use vstd::prelude::*;
use crate::bootstrap::TEMPLATE;
use crate::commands::{finish, finished, State, StateView, Step, StepView};
use crate::protocol::{Action, ActionView, Failure, FailureView, Outcome, OutcomeView};
use crate::text::optional_text;

verus! {

/// The first step of initializing: the script is looked for in the current directory.
pub open spec fn begun() -> StepView {
    StepView {
        state: StateView::ProbingProject,
        action: ActionView::ProbeFile { path: "orbit.sh"@ },
    }
}

/// The step after the script was looked for: an existing script is left as it is, a missing
/// one is written from the template.
pub open spec fn after_probe(exists: bool) -> StepView {
    if exists {
        finished(OutcomeView::Success)
    } else {
        StepView {
            state: StateView::WritingProject,
            action: ActionView::WriteFile { path: "orbit.sh"@, contents: TEMPLATE@ },
        }
    }
}

/// The step after the script was to be written.
pub open spec fn after_writing(error: Option<Seq<char>>) -> StepView {
    match error {
        Some(reason) => finished(OutcomeView::Failure(FailureView::Io(reason))),
        None => finished(OutcomeView::Success),
    }
}

/// Starts to initialize: gives the first step.
pub fn run() -> (step: Step)
    ensures
        step@ == begun(),
{
    Step { state: State::ProbingProject, action: Action::ProbeFile { path: "orbit.sh".to_owned() } }
}

/// Takes the answer on the script.
pub fn on_probe(exists: bool) -> (step: Step)
    ensures
        step@ == after_probe(exists),
{
    if exists {
        finish(Outcome::Success)
    } else {
        Step {
            state: State::WritingProject,
            action: Action::WriteFile {
                path: "orbit.sh".to_owned(),
                contents: TEMPLATE.to_owned(),
            },
        }
    }
}

/// Takes the answer on the writing of the script.
pub fn on_writing(error: Option<String>) -> (step: Step)
    ensures
        step@ == after_writing(optional_text(error)),
{
    match error {
        Some(reason) => finish(Outcome::Failure(Failure::Io(reason))),
        None => finish(Outcome::Success),
    }
}

} // verus!
