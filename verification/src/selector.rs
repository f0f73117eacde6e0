//! The interactive selector: what the fuzzy finder is started with, and what its output
//! means.

use vstd::prelude::*;
use crate::commands::{finish, finished, State, StateView, Step, StepView};
use crate::multiplexer::{Request, RequestView};
use crate::protocol::{Action, ActionView, Fatal, Outcome, OutcomeView};
use crate::session::{session_name_of, try_session_name};
use crate::text::{optional_text, strip_terminator, texts, without_terminator};

verus! {

/// The arguments of the fuzzy finder: it starts with the query, and where exactly one
/// candidate matches it selects that one without asking.
pub open spec fn picker_arguments(query: Seq<char>) -> Seq<Seq<char>> {
    seq!["--query"@, query, "--select-1"@]
}

/// What the output of the fuzzy finder selects: nothing where it is empty, otherwise the
/// selected line, which is the output without the line terminator at its end. The line
/// itself is kept as it is, a blank at its end included.
pub open spec fn selection(output: Seq<char>) -> Option<Seq<char>> {
    if output.len() == 0 {
        None
    } else {
        Some(without_terminator(output))
    }
}

/// The step that asks the multiplexer whether the session for `directory` exists.
pub open spec fn querying(session: Seq<char>, directory: Seq<char>) -> StepView {
    StepView {
        state: StateView::Querying { session, directory },
        action: ActionView::Multiplexer { request: RequestView::HasSession { name: session } },
    }
}

/// The step after the user was asked. Without a selection the operation ends in success. A
/// selected directory must have a final component to name the session after.
pub open spec fn after_pick(output: Seq<char>) -> StepView {
    match selection(output) {
        None => finished(OutcomeView::Success),
        Some(directory) => match session_name_of(directory) {
            None => finished(OutcomeView::Abort(Fatal::NoDirectoryName)),
            Some(session) => querying(session, directory),
        },
    }
}

/// Builds the arguments of the fuzzy finder.
pub fn picker_arguments_for(query: &str) -> (arguments: Vec<String>)
    ensures
        texts(arguments@) == picker_arguments(query@),
{
    let arguments = vec!["--query".to_owned(), query.to_owned(), "--select-1".to_owned()];
    assert(texts(arguments@) =~= picker_arguments(query@));
    arguments
}

/// Reads the output of the fuzzy finder.
pub fn parse_selection(output: &str) -> (selected: Option<String>)
    ensures
        optional_text(selected) == selection(output@),
{
    if output.is_empty() {
        None
    } else {
        Some(strip_terminator(output))
    }
}

/// Takes the output of the fuzzy finder and asks for the session of the selected directory.
pub fn on_pick(output: String) -> (step: Step)
    ensures
        step@ == after_pick(output@),
{
    match parse_selection(output.as_str()) {
        None => finish(Outcome::Success),
        Some(directory) => match try_session_name(directory.as_str()) {
            None => finish(Outcome::Abort(Fatal::NoDirectoryName)),
            Some(session) => Step {
                state: State::Querying { session: session.clone(), directory },
                action: Action::Multiplexer { request: Request::HasSession { name: session } },
            },
        },
    }
}

} // verus!
