//! The requests that are made of the terminal multiplexer, and the command line of each.

use vstd::prelude::*;
use crate::text::texts;

verus! {

/// Where the output of a multiplexer command goes.
#[derive(Clone, Copy, Debug, PartialEq, Eq)]
pub enum Output {
    /// Both streams go to the terminal.
    Inherit,
    /// The error stream is discarded.
    DiscardErrors,
    /// Both streams are discarded.
    DiscardAll,
}

/// A request to the multiplexer.
#[derive(Clone, Debug, PartialEq, Eq)]
pub enum Request {
    /// Does a session with exactly this name exist?
    HasSession { name: String },
    /// Create a detached session with this name, rooted at the directory.
    NewSession { name: String, directory: String },
    /// Type the command into the session, followed by the Enter key.
    SendKeys { session: String, command: String },
    /// Attach a new client to the session with exactly this name.
    AttachSession { name: String },
    /// Switch the current client to the session with exactly this name.
    SwitchClient { name: String },
    /// Detach the current client.
    DetachClient,
}

/// A request over texts.
pub enum RequestView {
    HasSession { name: Seq<char> },
    NewSession { name: Seq<char>, directory: Seq<char> },
    SendKeys { session: Seq<char>, command: Seq<char> },
    AttachSession { name: Seq<char> },
    SwitchClient { name: Seq<char> },
    DetachClient,
}

impl View for Request {
    type V = RequestView;

    open spec fn view(&self) -> RequestView {
        match self {
            Request::HasSession { name } => RequestView::HasSession { name: name@ },
            Request::NewSession { name, directory } => RequestView::NewSession {
                name: name@,
                directory: directory@,
            },
            Request::SendKeys { session, command } => RequestView::SendKeys {
                session: session@,
                command: command@,
            },
            Request::AttachSession { name } => RequestView::AttachSession { name: name@ },
            Request::SwitchClient { name } => RequestView::SwitchClient { name: name@ },
            Request::DetachClient => RequestView::DetachClient,
        }
    }
}

/// The target that matches the session called `name` and no other: the name behind an
/// equals sign. Without the sign the multiplexer would also accept a session whose name
/// merely starts with `name`.
pub open spec fn exact_target(name: Seq<char>) -> Seq<char> {
    "="@ + name
}

/// The arguments that the multiplexer is started with for a request.
pub open spec fn arguments_of(request: RequestView) -> Seq<Seq<char>> {
    match request {
        RequestView::HasSession { name } => seq!["has-session"@, "-t"@, exact_target(name)],
        RequestView::NewSession { name, directory } => seq![
            "new-session"@,
            "-d"@,
            "-s"@,
            name,
            "-c"@,
            directory,
        ],
        RequestView::SendKeys { session, command } => seq![
            "send-keys"@,
            "-t"@,
            session,
            command,
            "Enter"@,
        ],
        RequestView::AttachSession { name } => seq!["attach-session"@, "-t"@, exact_target(name)],
        RequestView::SwitchClient { name } => seq!["switch-client"@, "-t"@, exact_target(name)],
        RequestView::DetachClient => seq!["detach-client"@],
    }
}

/// Where the output of the command for a request goes: the query keeps its errors to itself,
/// creation is silent, all others talk to the terminal.
pub open spec fn output_of(request: RequestView) -> Output {
    match request {
        RequestView::HasSession { .. } => Output::DiscardErrors,
        RequestView::NewSession { .. } => Output::DiscardAll,
        _ => Output::Inherit,
    }
}

/// Whether an exit code reports success.
pub open spec fn succeeded(code: Option<i32>) -> bool {
    code == Some(0i32)
}

/// Whether the exit code of a session query says that the session does not exist. Only the
/// code 1 says so; every other outcome is taken for an existing session.
pub open spec fn reports_absent(code: Option<i32>) -> bool {
    code == Some(1i32)
}

/// Builds the target that matches the session called `name` and no other.
pub fn target(name: &str) -> (target: String)
    ensures
        target@ == exact_target(name@),
{
    let mut target = "=".to_owned();
    target.append(name);
    target
}

/// Whether an exit code reports success.
pub fn is_success(code: Option<i32>) -> (b: bool)
    ensures
        b == succeeded(code),
{
    match code {
        Some(c) => c == 0,
        None => false,
    }
}

/// Whether the exit code of a session query says that the session does not exist.
pub fn is_absent(code: Option<i32>) -> (b: bool)
    ensures
        b == reports_absent(code),
{
    match code {
        Some(c) => c == 1,
        None => false,
    }
}

impl Request {
    /// The arguments to start the multiplexer with.
    pub fn arguments(&self) -> (arguments: Vec<String>)
        ensures
            texts(arguments@) == arguments_of(self@),
    {
        let arguments = match self {
            Request::HasSession { name } => vec![
                "has-session".to_owned(),
                "-t".to_owned(),
                target(name.as_str()),
            ],
            Request::NewSession { name, directory } => vec![
                "new-session".to_owned(),
                "-d".to_owned(),
                "-s".to_owned(),
                name.clone(),
                "-c".to_owned(),
                directory.clone(),
            ],
            Request::SendKeys { session, command } => vec![
                "send-keys".to_owned(),
                "-t".to_owned(),
                session.clone(),
                command.clone(),
                "Enter".to_owned(),
            ],
            Request::AttachSession { name } => vec![
                "attach-session".to_owned(),
                "-t".to_owned(),
                target(name.as_str()),
            ],
            Request::SwitchClient { name } => vec![
                "switch-client".to_owned(),
                "-t".to_owned(),
                target(name.as_str()),
            ],
            Request::DetachClient => vec!["detach-client".to_owned()],
        };
        assert(texts(arguments@) =~= arguments_of(self@));
        arguments
    }

    /// Where the output of the command goes.
    pub fn output(&self) -> (output: Output)
        ensures
            output == output_of(self@),
    {
        match self {
            Request::HasSession { .. } => Output::DiscardErrors,
            Request::NewSession { .. } => Output::DiscardAll,
            _ => Output::Inherit,
        }
    }
}

} // verus!
