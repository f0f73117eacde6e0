use std::collections::{BTreeMap, BTreeSet};

use orbit::bootstrap::TEMPLATE;
use orbit::commands::attach::{self, AttachError};
use orbit::commands::detach::{self, DetachError};
use orbit::commands::{advance, advance_with, handle_command, init, Command, State, Step};
use orbit::multiplexer::Request;
use orbit::protocol::{Action, Entry, Event, Failure, Fatal, Listing, Outcome};
use orbit::{try_main, Args};

/// A stand-in for what surrounds the program.
struct World {
    variables: BTreeMap<String, String>,
    listings: BTreeMap<String, Listing>,
    picked: String,
    sessions: BTreeSet<String>,
    files: BTreeSet<String>,
    config: Option<String>,
    failing_writes: bool,
}

fn world() -> World {
    World {
        variables: BTreeMap::new(),
        listings: BTreeMap::new(),
        picked: String::new(),
        sessions: BTreeSet::new(),
        files: BTreeSet::new(),
        config: Some("/home/u/.config".to_string()),
        failing_writes: false,
    }
}

fn respond(world: &mut World, action: &Action) -> Event {
    match action {
        Action::ReadVariable { name } => Event::Variable(world.variables.get(name).cloned()),
        Action::ListDirectory { root } => {
            Event::Listing(world.listings.get(root).cloned().unwrap_or(Listing::NotADirectory))
        }
        Action::Pick { .. } => Event::Picked(world.picked.clone()),
        Action::Multiplexer { request } => Event::Exited(Some(match request {
            Request::HasSession { name } => {
                if world.sessions.contains(name) {
                    0
                } else {
                    1
                }
            }
            Request::NewSession { name, .. } => {
                if world.sessions.insert(name.clone()) {
                    0
                } else {
                    1
                }
            }
            Request::SendKeys { session, .. } => {
                if world.sessions.contains(session) {
                    0
                } else {
                    1
                }
            }
            _ => 0,
        })),
        Action::ProbeFile { path } => Event::Probed(world.files.contains(path)),
        Action::CreateDirectory { .. } => {
            if world.failing_writes {
                Event::Completed(Some("Permission denied (os error 13)".to_string()))
            } else {
                Event::Completed(None)
            }
        }
        Action::WriteFile { path, .. } => {
            world.files.insert(path.clone());
            Event::Completed(None)
        }
        Action::Finish { .. } => unreachable!(),
    }
}

/// Performs the actions of the steps from `first` on, and gives them with the outcome.
fn run(world: &mut World, first: Step) -> (Vec<Action>, Outcome) {
    let mut actions = Vec::new();
    let mut step = first;
    loop {
        if let Action::Finish { outcome } = step.action {
            assert_eq!(step.state, State::Finished);
            return (actions, outcome);
        }
        assert!(actions.len() < 64);
        let event = respond(world, &step.action);
        actions.push(step.action);
        step = advance_with(step.state, event, world.config.clone());
    }
}

fn attach(query: &str) -> Step {
    handle_command(&Command::Attach(attach::Args { query: query.to_string() }))
}

fn creations(actions: &[Action]) -> usize {
    actions
        .iter()
        .filter(|action| {
            matches!(action, Action::Multiplexer { request: Request::NewSession { .. } })
        })
        .count()
}

fn injections(actions: &[Action]) -> usize {
    actions
        .iter()
        .filter(|action| matches!(action, Action::Multiplexer { request: Request::SendKeys { .. } }))
        .count()
}

fn writes(actions: &[Action]) -> Vec<Action> {
    actions.iter().filter(|action| matches!(action, Action::WriteFile { .. })).cloned().collect()
}

fn projects() -> World {
    let mut world = world();
    world.variables.insert("ORBIT_PATH".to_string(), "/work:/play".to_string());
    world.listings.insert(
        "/work".to_string(),
        Listing::Entries(vec![
            Entry::Known { path: "/work/my project!".to_string(), directory: true },
            Entry::Known { path: "/work/todo.txt".to_string(), directory: false },
        ]),
    );
    world.listings.insert(
        "/play".to_string(),
        Listing::Entries(vec![Entry::Known { path: "/play/game".to_string(), directory: true }]),
    );
    world.picked = "/work/my project!\n".to_string();
    world
}

#[test]
fn handle_command_gives_the_first_step_of_each_command() {
    let args = attach::Args { query: "q".to_string() };
    assert_eq!(handle_command(&Command::Attach(args.clone())), attach::run(&args));
    assert_eq!(handle_command(&Command::Detach), detach::run());
    assert_eq!(handle_command(&Command::Init), init::run());
}

#[test]
fn try_main_starts_the_command_of_the_arguments() {
    let args = Args { command: Command::Detach };
    assert_eq!(try_main(&args), detach::run());
    let args = Args { command: Command::Attach(attach::Args { query: String::new() }) };
    assert_eq!(try_main(&args), attach(""));
}

#[test]
fn attaching_starts_with_the_search_path() {
    assert_eq!(
        attach("web"),
        Step {
            state: State::ReadingSearchPath { query: "web".to_string() },
            action: Action::ReadVariable { name: "ORBIT_PATH".to_string() },
        }
    );
}

#[test]
fn detaching_starts_with_the_marker() {
    assert_eq!(
        detach::run(),
        Step {
            state: State::CheckingMarker,
            action: Action::ReadVariable { name: "TMUX".to_string() },
        }
    );
}

#[test]
fn a_first_attach_creates_the_session_and_runs_the_script() {
    let mut world = projects();
    world.files.insert("/work/my project!/orbit.sh".to_string());
    let (actions, outcome) = run(&mut world, attach("proj"));
    assert_eq!(outcome, Outcome::Success);
    assert_eq!(
        actions,
        vec![
            Action::ReadVariable { name: "ORBIT_PATH".to_string() },
            Action::ListDirectory { root: "/work".to_string() },
            Action::ListDirectory { root: "/play".to_string() },
            Action::Pick {
                arguments: vec!["--query".to_string(), "proj".to_string(), "--select-1".to_string()],
                input: "/work/my project!\n/play/game\n".to_string(),
            },
            Action::Multiplexer { request: Request::HasSession { name: "my-project-".to_string() } },
            Action::Multiplexer {
                request: Request::NewSession {
                    name: "my-project-".to_string(),
                    directory: "/work/my project!".to_string(),
                },
            },
            Action::ProbeFile { path: "/work/my project!/orbit.sh".to_string() },
            Action::Multiplexer {
                request: Request::SendKeys {
                    session: "my-project-".to_string(),
                    command: "cat '/work/my project!/orbit.sh' | bash".to_string(),
                },
            },
            Action::ReadVariable { name: "TMUX".to_string() },
            Action::Multiplexer { request: Request::AttachSession { name: "my-project-".to_string() } },
        ]
    );
    assert!(world.sessions.contains("my-project-"));
}

#[test]
fn a_second_attach_neither_creates_nor_bootstraps() {
    let mut world = projects();
    let (first, outcome) = run(&mut world, attach(""));
    assert_eq!(outcome, Outcome::Success);
    assert_eq!(creations(&first), 1);
    assert_eq!(injections(&first), 1);
    let (second, outcome) = run(&mut world, attach(""));
    assert_eq!(outcome, Outcome::Success);
    assert_eq!(creations(&second), 0);
    assert_eq!(injections(&second), 0);
    assert_eq!(writes(&second), Vec::<Action>::new());
    assert_eq!(
        second[4..].to_vec(),
        vec![
            Action::Multiplexer { request: Request::HasSession { name: "my-project-".to_string() } },
            Action::ReadVariable { name: "TMUX".to_string() },
            Action::Multiplexer { request: Request::AttachSession { name: "my-project-".to_string() } },
        ]
    );
}

#[test]
fn inside_the_multiplexer_the_client_is_switched() {
    let mut world = projects();
    world.variables.insert("TMUX".to_string(), "/tmp/tmux-1000/default,1,0".to_string());
    let (actions, outcome) = run(&mut world, attach(""));
    assert_eq!(outcome, Outcome::Success);
    assert_eq!(
        actions.last(),
        Some(&Action::Multiplexer {
            request: Request::SwitchClient { name: "my-project-".to_string() },
        })
    );
}

#[test]
fn the_missing_script_is_written_once_from_the_template() {
    let mut world = projects();
    let (first, outcome) = run(&mut world, attach(""));
    assert_eq!(outcome, Outcome::Success);
    assert_eq!(
        writes(&first),
        vec![Action::WriteFile {
            path: "/home/u/.config/orbit/orbit.sh".to_string(),
            contents: TEMPLATE.to_string(),
        }]
    );
    assert!(first.contains(&Action::CreateDirectory { path: "/home/u/.config/orbit".to_string() }));
    assert!(first.contains(&Action::Multiplexer {
        request: Request::SendKeys {
            session: "my-project-".to_string(),
            command: "cat '/home/u/.config/orbit/orbit.sh' | bash".to_string(),
        },
    }));
    let resolved = orbit::bootstrap::resolve("other".to_string(), "/work/my project!");
    let (again, _) = run(&mut world, resolved);
    assert_eq!(writes(&again), Vec::<Action>::new());
    assert_eq!(
        again[..2].to_vec(),
        vec![
            Action::ProbeFile { path: "/work/my project!/orbit.sh".to_string() },
            Action::ProbeFile { path: "/home/u/.config/orbit/orbit.sh".to_string() },
        ]
    );
}

#[test]
fn an_existing_user_script_is_not_written() {
    let mut world = projects();
    world.files.insert("/home/u/.config/orbit/orbit.sh".to_string());
    let (actions, outcome) = run(&mut world, attach(""));
    assert_eq!(outcome, Outcome::Success);
    assert_eq!(writes(&actions), Vec::<Action>::new());
    assert_eq!(injections(&actions), 1);
}

#[test]
fn nothing_to_pick_from_ends_in_success_without_a_session() {
    let mut world = world();
    let (actions, outcome) = run(&mut world, attach("anything"));
    assert_eq!(outcome, Outcome::Success);
    assert_eq!(
        actions,
        vec![
            Action::ReadVariable { name: "ORBIT_PATH".to_string() },
            Action::Pick {
                arguments: vec![
                    "--query".to_string(),
                    "anything".to_string(),
                    "--select-1".to_string()
                ],
                input: String::new(),
            },
        ]
    );
    assert!(world.sessions.is_empty());
    assert!(world.files.is_empty());
}

#[test]
fn an_aborted_selection_ends_in_success_without_a_session() {
    let mut world = projects();
    world.picked = String::new();
    let (actions, outcome) = run(&mut world, attach(""));
    assert_eq!(outcome, Outcome::Success);
    assert_eq!(actions.len(), 4);
    assert!(world.sessions.is_empty());
}

#[test]
fn an_invalid_root_fails_before_the_user_is_asked() {
    let mut world = projects();
    world.variables.insert("ORBIT_PATH".to_string(), "/work:/gone:/play".to_string());
    let (actions, outcome) = run(&mut world, attach(""));
    assert_eq!(
        outcome,
        Outcome::Failure(Failure::Attach(AttachError::InvalidPath("/gone".to_string())))
    );
    assert_eq!(
        actions,
        vec![
            Action::ReadVariable { name: "ORBIT_PATH".to_string() },
            Action::ListDirectory { root: "/work".to_string() },
            Action::ListDirectory { root: "/gone".to_string() },
        ]
    );
}

#[test]
fn a_session_that_is_not_created_ends_the_process() {
    let step = advance(
        State::Creating { session: "s".to_string(), directory: "/d".to_string() },
        Event::Exited(Some(1)),
    );
    assert_eq!(step.action, Action::Finish { outcome: Outcome::Abort(Fatal::SessionNotCreated) });
    let step = advance(
        State::Creating { session: "s".to_string(), directory: "/d".to_string() },
        Event::Exited(None),
    );
    assert_eq!(step.action, Action::Finish { outcome: Outcome::Abort(Fatal::SessionNotCreated) });
}

#[test]
fn a_script_that_is_not_run_ends_the_process() {
    let step = advance(State::Injecting { session: "s".to_string() }, Event::Exited(Some(1)));
    assert_eq!(step.action, Action::Finish { outcome: Outcome::Abort(Fatal::ScriptNotRun) });
}

#[test]
fn only_the_exit_code_one_leads_to_creation() {
    let querying = State::Querying { session: "s".to_string(), directory: "/d".to_string() };
    let created = advance(querying.clone(), Event::Exited(Some(1)));
    assert_eq!(
        created.action,
        Action::Multiplexer {
            request: Request::NewSession { name: "s".to_string(), directory: "/d".to_string() },
        }
    );
    for code in [Some(0), Some(2), Some(127), None] {
        let step = advance(querying.clone(), Event::Exited(code));
        assert_eq!(step.action, Action::ReadVariable { name: "TMUX".to_string() });
        assert_eq!(step.state, State::ReadingMarker { session: "s".to_string() });
    }
}

#[test]
fn the_exit_status_of_the_client_is_not_an_error() {
    for code in [Some(0), Some(1), None] {
        let step = advance(State::Connecting, Event::Exited(code));
        assert_eq!(step.action, Action::Finish { outcome: Outcome::Success });
    }
}

#[test]
fn a_failing_directory_is_reported_and_nothing_is_injected() {
    let mut world = projects();
    world.failing_writes = true;
    let (actions, outcome) = run(&mut world, attach(""));
    assert_eq!(
        outcome,
        Outcome::Failure(Failure::Io("Permission denied (os error 13)".to_string()))
    );
    assert_eq!(injections(&actions), 0);
    assert_eq!(writes(&actions), Vec::<Action>::new());
}

#[test]
fn detaching_outside_the_multiplexer_is_an_error() {
    let mut world = world();
    let (actions, outcome) = run(&mut world, handle_command(&Command::Detach));
    assert_eq!(outcome, Outcome::Failure(Failure::Detach(DetachError::NotInsideTmux)));
    assert_eq!(actions, vec![Action::ReadVariable { name: "TMUX".to_string() }]);
}

#[test]
fn detaching_inside_the_multiplexer_detaches_the_client() {
    let mut world = world();
    world.variables.insert("TMUX".to_string(), String::new());
    let (actions, outcome) = run(&mut world, handle_command(&Command::Detach));
    assert_eq!(outcome, Outcome::Success);
    assert_eq!(
        actions,
        vec![
            Action::ReadVariable { name: "TMUX".to_string() },
            Action::Multiplexer { request: Request::DetachClient },
        ]
    );
}

#[test]
fn a_client_that_is_not_detached_ends_the_process() {
    let step = advance(State::Detaching, Event::Exited(Some(1)));
    assert_eq!(step.action, Action::Finish { outcome: Outcome::Abort(Fatal::ClientNotDetached) });
}

#[test]
fn initializing_writes_the_script_of_the_project_once() {
    let mut world = world();
    let (actions, outcome) = run(&mut world, handle_command(&Command::Init));
    assert_eq!(outcome, Outcome::Success);
    assert_eq!(
        actions,
        vec![
            Action::ProbeFile { path: "orbit.sh".to_string() },
            Action::WriteFile { path: "orbit.sh".to_string(), contents: TEMPLATE.to_string() },
        ]
    );
    let (again, outcome) = run(&mut world, handle_command(&Command::Init));
    assert_eq!(outcome, Outcome::Success);
    assert_eq!(again, vec![Action::ProbeFile { path: "orbit.sh".to_string() }]);
}

#[test]
fn initializing_reports_a_script_that_cannot_be_written() {
    let step = advance(State::WritingProject, Event::Completed(Some("disk full".to_string())));
    assert_eq!(
        step.action,
        Action::Finish { outcome: Outcome::Failure(Failure::Io("disk full".to_string())) }
    );
}

#[test]
fn an_event_that_answers_nothing_ends_the_process() {
    let step = advance(State::Picking, Event::Probed(true));
    assert_eq!(step.state, State::Finished);
    assert_eq!(step.action, Action::Finish { outcome: Outcome::Abort(Fatal::UnexpectedEvent) });
    let step = advance(State::Finished, Event::Exited(Some(0)));
    assert_eq!(step.action, Action::Finish { outcome: Outcome::Abort(Fatal::UnexpectedEvent) });
    let step = advance(State::ReadingSearchPath { query: String::new() }, Event::Picked(String::new()));
    assert_eq!(step.action, Action::Finish { outcome: Outcome::Abort(Fatal::UnexpectedEvent) });
}
