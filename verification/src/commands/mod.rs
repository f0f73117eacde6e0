//! The commands of the program, and the steps that each of them takes. A command starts
//! with a first step; the program performs the action of the step and hands back the event,
//! which gives the next step, until the action is to finish.

use vstd::prelude::*;
use crate::protocol::{Action, ActionView, Event, EventView, Fatal, Outcome, OutcomeView};
use crate::text::{optional_text, texts};

pub mod attach;
pub mod detach;
pub mod init;

verus! {

/// A command of the program.
#[derive(Clone, Debug, PartialEq, Eq)]
pub enum Command {
    /// Initialize a new project in the current directory.
    Init,
    /// Open a session.
    Attach(attach::Args),
    /// Close the current session.
    Detach,
}

/// Where an operation stands: which answer it waits for, and what it has to remember.
#[derive(Clone, Debug, PartialEq, Eq)]
pub enum State {
    /// Attaching: waits for the value of the search path.
    ReadingSearchPath { query: String },
    /// Attaching: waits for the listing of `root`; `rest` are the roots that follow.
    Scanning { query: String, root: String, rest: Vec<String>, candidates: Vec<String> },
    /// Attaching: waits for the user's selection.
    Picking,
    /// Attaching: waits to hear whether the session exists.
    Querying { session: String, directory: String },
    /// Attaching: waits for the session to be created.
    Creating { session: String, directory: String },
    /// Attaching: waits to hear whether the project's script exists.
    ProbingLocal { session: String, script: String },
    /// Attaching: waits to hear whether the user's script exists.
    ProbingGlobal { session: String, directory: String, script: String },
    /// Attaching: waits for the directory of the user's script to be created.
    MakingDirectory { session: String, script: String },
    /// Attaching: waits for the template to be written.
    WritingTemplate { session: String, script: String },
    /// Attaching: waits for the bootstrap command to be typed into the session.
    Injecting { session: String },
    /// Attaching: waits to hear whether the process runs inside the multiplexer.
    ReadingMarker { session: String },
    /// Attaching: waits for the client to come back.
    Connecting,
    /// Detaching: waits to hear whether the process runs inside the multiplexer.
    CheckingMarker,
    /// Detaching: waits for the client to be detached.
    Detaching,
    /// Initializing: waits to hear whether the project has a script.
    ProbingProject,
    /// Initializing: waits for the project's script to be written.
    WritingProject,
    /// The operation has ended.
    Finished,
}

/// A state over texts.
pub enum StateView {
    ReadingSearchPath { query: Seq<char> },
    Scanning {
        query: Seq<char>,
        root: Seq<char>,
        rest: Seq<Seq<char>>,
        candidates: Seq<Seq<char>>,
    },
    Picking,
    Querying { session: Seq<char>, directory: Seq<char> },
    Creating { session: Seq<char>, directory: Seq<char> },
    ProbingLocal { session: Seq<char>, script: Seq<char> },
    ProbingGlobal { session: Seq<char>, directory: Seq<char>, script: Seq<char> },
    MakingDirectory { session: Seq<char>, script: Seq<char> },
    WritingTemplate { session: Seq<char>, script: Seq<char> },
    Injecting { session: Seq<char> },
    ReadingMarker { session: Seq<char> },
    Connecting,
    CheckingMarker,
    Detaching,
    ProbingProject,
    WritingProject,
    Finished,
}

impl View for State {
    type V = StateView;

    open spec fn view(&self) -> StateView {
        match self {
            State::ReadingSearchPath { query } => StateView::ReadingSearchPath { query: query@ },
            State::Scanning { query, root, rest, candidates } => StateView::Scanning {
                query: query@,
                root: root@,
                rest: texts(rest@),
                candidates: texts(candidates@),
            },
            State::Picking => StateView::Picking,
            State::Querying { session, directory } => StateView::Querying {
                session: session@,
                directory: directory@,
            },
            State::Creating { session, directory } => StateView::Creating {
                session: session@,
                directory: directory@,
            },
            State::ProbingLocal { session, script } => StateView::ProbingLocal {
                session: session@,
                script: script@,
            },
            State::ProbingGlobal { session, directory, script } => StateView::ProbingGlobal {
                session: session@,
                directory: directory@,
                script: script@,
            },
            State::MakingDirectory { session, script } => StateView::MakingDirectory {
                session: session@,
                script: script@,
            },
            State::WritingTemplate { session, script } => StateView::WritingTemplate {
                session: session@,
                script: script@,
            },
            State::Injecting { session } => StateView::Injecting { session: session@ },
            State::ReadingMarker { session } => StateView::ReadingMarker { session: session@ },
            State::Connecting => StateView::Connecting,
            State::CheckingMarker => StateView::CheckingMarker,
            State::Detaching => StateView::Detaching,
            State::ProbingProject => StateView::ProbingProject,
            State::WritingProject => StateView::WritingProject,
            State::Finished => StateView::Finished,
        }
    }
}

/// A state together with the action that leads out of it.
#[derive(Clone, Debug, PartialEq, Eq)]
pub struct Step {
    /// Where the operation stands.
    pub state: State,
    /// What the program is to do now.
    pub action: Action,
}

/// A step over texts.
pub struct StepView {
    pub state: StateView,
    pub action: ActionView,
}

impl View for Step {
    type V = StepView;

    open spec fn view(&self) -> StepView {
        StepView { state: self.state@, action: self.action@ }
    }
}

/// The last step of an operation that ends with `outcome`.
pub open spec fn finished(outcome: OutcomeView) -> StepView {
    StepView { state: StateView::Finished, action: ActionView::Finish { outcome } }
}

/// The first step of a command.
pub open spec fn first_step(command: Command) -> StepView {
    match command {
        Command::Init => init::begun(),
        Command::Attach(args) => attach::begun(args.query@),
        Command::Detach => detach::begun(),
    }
}

/// Whether the step after `event` in `state` depends on the user's configuration directory:
/// only the step after the project's script was found missing does.
pub open spec fn consults_config(state: StateView, event: EventView) -> bool {
    state is ProbingLocal && event == EventView::Probed(false)
}

/// The step that follows when `event` answers the action of `state`; `config` is the user's
/// configuration directory, as far as it can be determined. An event that does not answer
/// the action ends the operation.
pub open spec fn transition(
    state: StateView,
    event: EventView,
    config: Option<Seq<char>>,
) -> StepView {
    match (state, event) {
        (StateView::ReadingSearchPath { query }, EventView::Variable(value)) => {
            crate::resolver::after_search_path(query, value)
        },
        (
            StateView::Scanning { query, root, rest, candidates },
            EventView::Listing(listing),
        ) => crate::resolver::after_listing(query, root, rest, candidates, listing),
        (StateView::Picking, EventView::Picked(output)) => crate::selector::after_pick(output),
        (StateView::Querying { session, directory }, EventView::Exited(code)) => {
            attach::after_query(session, directory, code)
        },
        (StateView::Creating { session, directory }, EventView::Exited(code)) => {
            attach::after_creation(session, directory, code)
        },
        (StateView::ProbingLocal { session, script }, EventView::Probed(exists)) => {
            crate::bootstrap::after_local_probe(session, script, exists, config)
        },
        (
            StateView::ProbingGlobal { session, directory, script },
            EventView::Probed(exists),
        ) => crate::bootstrap::after_global_probe(session, directory, script, exists),
        (StateView::MakingDirectory { session, script }, EventView::Completed(error)) => {
            crate::bootstrap::after_directory(session, script, error)
        },
        (StateView::WritingTemplate { session, script }, EventView::Completed(error)) => {
            crate::bootstrap::after_template(session, script, error)
        },
        (StateView::Injecting { session }, EventView::Exited(code)) => attach::after_injection(
            session,
            code,
        ),
        (StateView::ReadingMarker { session }, EventView::Variable(value)) => {
            attach::after_marker(session, value)
        },
        (StateView::Connecting, EventView::Exited(_)) => attach::after_connection(),
        (StateView::CheckingMarker, EventView::Variable(value)) => detach::after_marker(value),
        (StateView::Detaching, EventView::Exited(code)) => detach::after_detaching(code),
        (StateView::ProbingProject, EventView::Probed(exists)) => init::after_probe(exists),
        (StateView::WritingProject, EventView::Completed(error)) => init::after_writing(error),
        _ => finished(OutcomeView::Abort(Fatal::UnexpectedEvent)),
    }
}

/// Ends the operation with `outcome`.
pub fn finish(outcome: Outcome) -> (step: Step)
    ensures
        step@ == finished(outcome@),
{
    Step { state: State::Finished, action: Action::Finish { outcome } }
}

/// Starts the command: gives its first step.
pub fn handle_command(command: &Command) -> (step: Step)
    ensures
        step@ == first_step(*command),
{
    match command {
        Command::Init => init::run(),
        Command::Attach(args) => attach::run(args),
        Command::Detach => detach::run(),
    }
}

/// Whether the step after `event` in `state` depends on the user's configuration directory.
pub fn needs_config(state: &State, event: &Event) -> (needed: bool)
    ensures
        needed == consults_config(state@, event@),
{
    match (state, event) {
        (State::ProbingLocal { .. }, Event::Probed(exists)) => !*exists,
        _ => false,
    }
}

/// Gives the step that follows when `event` answers the action of `state`, with the
/// user's configuration directory given.
pub fn advance_with(state: State, event: Event, config: Option<String>) -> (step: Step)
    ensures
        step@ == transition(state@, event@, optional_text(config)),
{
    match (state, event) {
        (State::ReadingSearchPath { query }, Event::Variable(value)) => {
            crate::resolver::on_search_path(query, value)
        },
        (State::Scanning { query, root, rest, candidates }, Event::Listing(listing)) => {
            crate::resolver::on_listing(query, root, rest, candidates, listing)
        },
        (State::Picking, Event::Picked(output)) => crate::selector::on_pick(output),
        (State::Querying { session, directory }, Event::Exited(code)) => attach::on_query(
            session,
            directory,
            code,
        ),
        (State::Creating { session, directory }, Event::Exited(code)) => attach::on_creation(
            session,
            directory,
            code,
        ),
        (State::ProbingLocal { session, script }, Event::Probed(exists)) => {
            crate::bootstrap::on_local_probe(session, script, exists, config)
        },
        (State::ProbingGlobal { session, directory, script }, Event::Probed(exists)) => {
            crate::bootstrap::on_global_probe(session, directory, script, exists)
        },
        (State::MakingDirectory { session, script }, Event::Completed(error)) => {
            crate::bootstrap::on_directory(session, script, error)
        },
        (State::WritingTemplate { session, script }, Event::Completed(error)) => {
            crate::bootstrap::on_template(session, script, error)
        },
        (State::Injecting { session }, Event::Exited(code)) => attach::on_injection(
            session,
            code,
        ),
        (State::ReadingMarker { session }, Event::Variable(value)) => attach::on_marker(
            session,
            value,
        ),
        (State::Connecting, Event::Exited(_)) => attach::on_connection(),
        (State::CheckingMarker, Event::Variable(value)) => detach::on_marker(value),
        (State::Detaching, Event::Exited(code)) => detach::on_detaching(code),
        (State::ProbingProject, Event::Probed(exists)) => init::on_probe(exists),
        (State::WritingProject, Event::Completed(error)) => init::on_writing(error),
        _ => finish(Outcome::Abort(Fatal::UnexpectedEvent)),
    }
}

/// Gives the step that follows when `event` answers the action of `state`. The user's
/// configuration directory is asked for where the step depends on it, and only there;
/// whatever the answer, the step is the one that follows with that answer.
pub fn advance(state: State, event: Event) -> (step: Step)
    ensures
        !consults_config(state@, event@) ==> step@ == transition(state@, event@, None),
        consults_config(state@, event@) ==> exists|config: Option<Seq<char>>|
            step@ == #[trigger] transition(state@, event@, config),
{
    let config = if needs_config(&state, &event) {
        crate::bootstrap::user_config_dir()
    } else {
        None
    };
    advance_with(state, event, config)
}

} // verus!
