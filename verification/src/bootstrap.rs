//! The bootstrap resolver: which script a new session runs. A script in the project's
//! directory comes first, then the user's script in the configuration directory. Where
//! neither exists, the user's script is written from a template, once.

use vstd::prelude::*;
use crate::commands::{finish, finished, State, StateView, Step, StepView};
use crate::multiplexer::{Request, RequestView};
use crate::path::{join, joined_path};
use crate::protocol::{Action, ActionView, Failure, FailureView, Fatal, Outcome, OutcomeView};
use crate::text::optional_text;

verus! {

/// The script that the user's fallback is created with.
pub const TEMPLATE: &'static str =
    "#!/usr/bin/env bash\n#\n# Runs inside every new session, right after the session was created.\n# A project that needs a setup of its own keeps an orbit.sh in its directory.\n";

/// The script of the project in `directory`.
pub open spec fn local_script(directory: Seq<char>) -> Seq<char> {
    joined_path(directory, "orbit.sh"@)
}

/// The directory of the user's script, below the configuration directory.
pub open spec fn fallback_directory(config: Seq<char>) -> Seq<char> {
    joined_path(config, "orbit"@)
}

/// The user's script, below the configuration directory.
pub open spec fn fallback_script(config: Seq<char>) -> Seq<char> {
    joined_path(fallback_directory(config), "orbit.sh"@)
}

/// The command that runs `script` in the shell of a session: the script is read and piped
/// into a shell.
pub open spec fn bootstrap_command(script: Seq<char>) -> Seq<char> {
    "cat '"@ + script + "' | bash"@
}

/// The step that looks for the script of the project in `directory`.
pub open spec fn resolving(session: Seq<char>, directory: Seq<char>) -> StepView {
    StepView {
        state: StateView::ProbingLocal { session, script: local_script(directory) },
        action: ActionView::ProbeFile { path: local_script(directory) },
    }
}

/// The step that types the command to run `script` into the session.
pub open spec fn injecting(session: Seq<char>, script: Seq<char>) -> StepView {
    StepView {
        state: StateView::Injecting { session },
        action: ActionView::Multiplexer {
            request: RequestView::SendKeys { session, command: bootstrap_command(script) },
        },
    }
}

/// The step after the project's script was looked for. It is used where it exists. Otherwise
/// the user's script is looked for, which needs the configuration directory `config`.
pub open spec fn after_local_probe(
    session: Seq<char>,
    script: Seq<char>,
    exists: bool,
    config: Option<Seq<char>>,
) -> StepView {
    if exists {
        injecting(session, script)
    } else {
        match config {
            None => finished(OutcomeView::Abort(Fatal::NoConfigDirectory)),
            Some(config) => StepView {
                state: StateView::ProbingGlobal {
                    session,
                    directory: fallback_directory(config),
                    script: fallback_script(config),
                },
                action: ActionView::ProbeFile { path: fallback_script(config) },
            },
        }
    }
}

/// The step after the user's script was looked for. It is used where it exists. Otherwise
/// its directory is created first.
pub open spec fn after_global_probe(
    session: Seq<char>,
    directory: Seq<char>,
    script: Seq<char>,
    exists: bool,
) -> StepView {
    if exists {
        injecting(session, script)
    } else {
        StepView {
            state: StateView::MakingDirectory { session, script },
            action: ActionView::CreateDirectory { path: directory },
        }
    }
}

/// The step after the directory of the user's script was created: the template is written,
/// or the error ends the operation.
pub open spec fn after_directory(
    session: Seq<char>,
    script: Seq<char>,
    error: Option<Seq<char>>,
) -> StepView {
    match error {
        Some(reason) => finished(OutcomeView::Failure(FailureView::Io(reason))),
        None => StepView {
            state: StateView::WritingTemplate { session, script },
            action: ActionView::WriteFile { path: script, contents: TEMPLATE@ },
        },
    }
}

/// The step after the template was written: the new script is used, or the error ends the
/// operation.
pub open spec fn after_template(
    session: Seq<char>,
    script: Seq<char>,
    error: Option<Seq<char>>,
) -> StepView {
    match error {
        Some(reason) => finished(OutcomeView::Failure(FailureView::Io(reason))),
        None => injecting(session, script),
    }
}

/// Asks `dirs::config_dir` for the user's configuration directory and gives it as text; a
/// directory whose path is not valid Unicode cannot be given as text and counts as not
/// determined. The answer depends on the environment of the process, so nothing is claimed
/// about it.
#[verifier::external_body]
pub(crate) fn user_config_dir() -> (config: Option<String>) {
    match dirs::config_dir() {
        Some(path) => path.into_os_string().into_string().ok(),
        None => None,
    }
}

/// Builds the command that runs `script` in the shell of a session.
pub fn command_for(script: &str) -> (command: String)
    ensures
        command@ == bootstrap_command(script@),
{
    let mut command = "cat '".to_owned();
    command.append(script);
    command.append("' | bash");
    command
}

/// Looks for the script of the project in `directory`.
pub fn resolve(session: String, directory: &str) -> (step: Step)
    ensures
        step@ == resolving(session@, directory@),
{
    let script = join(directory, "orbit.sh");
    Step {
        state: State::ProbingLocal { session, script: script.clone() },
        action: Action::ProbeFile { path: script },
    }
}

/// Types the command to run `script` into the session.
pub fn inject(session: String, script: &str) -> (step: Step)
    ensures
        step@ == injecting(session@, script@),
{
    let command = command_for(script);
    Step {
        state: State::Injecting { session: session.clone() },
        action: Action::Multiplexer { request: Request::SendKeys { session, command } },
    }
}

/// Takes the answer on the project's script; `config` is the user's configuration directory.
pub fn on_local_probe(session: String, script: String, exists: bool, config: Option<String>) -> (step:
    Step)
    ensures
        step@ == after_local_probe(session@, script@, exists, optional_text(config)),
{
    if exists {
        inject(session, script.as_str())
    } else {
        match config {
            None => finish(Outcome::Abort(Fatal::NoConfigDirectory)),
            Some(config) => {
                let directory = join(config.as_str(), "orbit");
                let fallback = join(directory.as_str(), "orbit.sh");
                Step {
                    state: State::ProbingGlobal { session, directory, script: fallback.clone() },
                    action: Action::ProbeFile { path: fallback },
                }
            },
        }
    }
}

/// Takes the answer on the user's script.
pub fn on_global_probe(session: String, directory: String, script: String, exists: bool) -> (step:
    Step)
    ensures
        step@ == after_global_probe(session@, directory@, script@, exists),
{
    if exists {
        inject(session, script.as_str())
    } else {
        Step {
            state: State::MakingDirectory { session, script },
            action: Action::CreateDirectory { path: directory },
        }
    }
}

/// Takes the answer on the directory of the user's script.
pub fn on_directory(session: String, script: String, error: Option<String>) -> (step: Step)
    ensures
        step@ == after_directory(session@, script@, optional_text(error)),
{
    match error {
        Some(reason) => finish(Outcome::Failure(Failure::Io(reason))),
        None => Step {
            state: State::WritingTemplate { session, script: script.clone() },
            action: Action::WriteFile { path: script, contents: TEMPLATE.to_owned() },
        },
    }
}

/// Takes the answer on the template.
pub fn on_template(session: String, script: String, error: Option<String>) -> (step: Step)
    ensures
        step@ == after_template(session@, script@, optional_text(error)),
{
    match error {
        Some(reason) => finish(Outcome::Failure(Failure::Io(reason))),
        None => inject(session, script.as_str()),
    }
}

} // verus!
