use orbit::bootstrap::{
    command_for, inject, on_directory, on_global_probe, on_local_probe, on_template, resolve,
    TEMPLATE,
};
use orbit::commands::{advance, advance_with, needs_config, State, Step};
use orbit::multiplexer::Request;
use orbit::protocol::{Action, Event, Failure, Fatal, Outcome};

fn injection(session: &str, script: &str) -> Step {
    Step {
        state: State::Injecting { session: session.to_string() },
        action: Action::Multiplexer {
            request: Request::SendKeys {
                session: session.to_string(),
                command: format!("cat '{}' | bash", script),
            },
        },
    }
}

#[test]
fn the_command_pipes_the_script_into_a_shell() {
    assert_eq!(command_for("/home/u/proj/orbit.sh"), "cat '/home/u/proj/orbit.sh' | bash");
}

#[test]
fn the_template_is_a_shell_script() {
    assert!(TEMPLATE.starts_with("#!"));
    assert!(TEMPLATE.ends_with('\n'));
}

#[test]
fn resolving_starts_with_the_script_of_the_project() {
    assert_eq!(
        resolve("proj".to_string(), "/home/u/proj"),
        Step {
            state: State::ProbingLocal {
                session: "proj".to_string(),
                script: "/home/u/proj/orbit.sh".to_string(),
            },
            action: Action::ProbeFile { path: "/home/u/proj/orbit.sh".to_string() },
        }
    );
}

#[test]
fn inject_sends_the_command_to_the_session() {
    assert_eq!(inject("proj".to_string(), "/s/orbit.sh"), injection("proj", "/s/orbit.sh"));
}

#[test]
fn an_existing_project_script_is_used() {
    let step = on_local_probe("proj".to_string(), "/p/orbit.sh".to_string(), true, None);
    assert_eq!(step, injection("proj", "/p/orbit.sh"));
}

#[test]
fn a_missing_project_script_leads_to_the_users_script() {
    let step = on_local_probe(
        "proj".to_string(),
        "/p/orbit.sh".to_string(),
        false,
        Some("/home/u/.config".to_string()),
    );
    assert_eq!(
        step,
        Step {
            state: State::ProbingGlobal {
                session: "proj".to_string(),
                directory: "/home/u/.config/orbit".to_string(),
                script: "/home/u/.config/orbit/orbit.sh".to_string(),
            },
            action: Action::ProbeFile { path: "/home/u/.config/orbit/orbit.sh".to_string() },
        }
    );
}

#[test]
fn without_a_configuration_directory_the_process_ends() {
    let step = on_local_probe("proj".to_string(), "/p/orbit.sh".to_string(), false, None);
    assert_eq!(step.state, State::Finished);
    assert_eq!(step.action, Action::Finish { outcome: Outcome::Abort(Fatal::NoConfigDirectory) });
}

#[test]
fn an_existing_user_script_is_used() {
    let step = on_global_probe(
        "proj".to_string(),
        "/c/orbit".to_string(),
        "/c/orbit/orbit.sh".to_string(),
        true,
    );
    assert_eq!(step, injection("proj", "/c/orbit/orbit.sh"));
}

#[test]
fn a_missing_user_script_gets_its_directory_first() {
    let step = on_global_probe(
        "proj".to_string(),
        "/c/orbit".to_string(),
        "/c/orbit/orbit.sh".to_string(),
        false,
    );
    assert_eq!(
        step,
        Step {
            state: State::MakingDirectory {
                session: "proj".to_string(),
                script: "/c/orbit/orbit.sh".to_string(),
            },
            action: Action::CreateDirectory { path: "/c/orbit".to_string() },
        }
    );
}

#[test]
fn the_template_is_written_into_the_new_directory() {
    let step = on_directory("proj".to_string(), "/c/orbit/orbit.sh".to_string(), None);
    assert_eq!(
        step,
        Step {
            state: State::WritingTemplate {
                session: "proj".to_string(),
                script: "/c/orbit/orbit.sh".to_string(),
            },
            action: Action::WriteFile {
                path: "/c/orbit/orbit.sh".to_string(),
                contents: TEMPLATE.to_string(),
            },
        }
    );
}

#[test]
fn a_directory_that_cannot_be_created_is_reported() {
    let step = on_directory(
        "proj".to_string(),
        "/c/orbit/orbit.sh".to_string(),
        Some("Read-only file system (os error 30)".to_string()),
    );
    assert_eq!(
        step.action,
        Action::Finish {
            outcome: Outcome::Failure(Failure::Io(
                "Read-only file system (os error 30)".to_string()
            )),
        }
    );
}

#[test]
fn the_written_template_is_used() {
    let step = on_template("proj".to_string(), "/c/orbit/orbit.sh".to_string(), None);
    assert_eq!(step, injection("proj", "/c/orbit/orbit.sh"));
}

#[test]
fn a_template_that_cannot_be_written_is_reported() {
    let step = on_template("proj".to_string(), "/c/o.sh".to_string(), Some("disk full".to_string()));
    assert_eq!(
        step.action,
        Action::Finish { outcome: Outcome::Failure(Failure::Io("disk full".to_string())) }
    );
    assert_eq!(step.state, State::Finished);
}

#[test]
fn only_a_missing_project_script_needs_the_configuration_directory() {
    let probing = State::ProbingLocal { session: "s".to_string(), script: "/p/orbit.sh".to_string() };
    assert!(needs_config(&probing, &Event::Probed(false)));
    assert!(!needs_config(&probing, &Event::Probed(true)));
    assert!(!needs_config(&probing, &Event::Exited(Some(0))));
    assert!(!needs_config(&State::Picking, &Event::Probed(false)));
    let global = State::ProbingGlobal {
        session: "s".to_string(),
        directory: "/c/orbit".to_string(),
        script: "/c/orbit/orbit.sh".to_string(),
    };
    assert!(!needs_config(&global, &Event::Probed(false)));
}

#[test]
fn advance_asks_for_the_configuration_directory_of_this_user() {
    let probing = State::ProbingLocal { session: "s".to_string(), script: "/p/orbit.sh".to_string() };
    let step = advance(probing.clone(), Event::Probed(false));
    let config = dirs::config_dir().and_then(|path| path.to_str().map(String::from));
    assert_eq!(step, advance_with(probing, Event::Probed(false), config.clone()));
    match config {
        None => assert_eq!(
            step.action,
            Action::Finish { outcome: Outcome::Abort(Fatal::NoConfigDirectory) }
        ),
        Some(config) => match step.action {
            Action::ProbeFile { path } => {
                assert!(path.starts_with(&config));
                assert!(path.ends_with("/orbit/orbit.sh"));
            }
            other => panic!("expected a probe of the fallback script, got {:?}", other),
        },
    }
}

#[test]
fn advance_uses_an_existing_project_script_without_asking() {
    let probing = State::ProbingLocal { session: "s".to_string(), script: "/p/orbit.sh".to_string() };
    assert_eq!(advance(probing, Event::Probed(true)), injection("s", "/p/orbit.sh"));
}
