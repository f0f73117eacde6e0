//! What passes between the library and the program that drives it. The library decides; the
//! program acts. An `Action` tells the program what to do next, and the `Event` that it hands
//! back tells the library how that went.

use vstd::prelude::*;
use crate::commands::attach::{AttachError, AttachErrorView};
use crate::commands::detach::DetachError;
use crate::multiplexer::{Request, RequestView};
use crate::text::{optional_text, texts};

verus! {

/// One entry of a directory, as far as it could be read.
#[derive(Clone, Debug, PartialEq, Eq)]
pub enum Entry {
    /// An entry whose type was read; `directory` says whether it is a directory.
    Known { path: String, directory: bool },
    /// An entry that could not be read, or whose type could not be determined.
    Unknown,
}

/// An entry over texts.
pub enum EntryView {
    Known { path: Seq<char>, directory: bool },
    Unknown,
}

impl View for Entry {
    type V = EntryView;

    open spec fn view(&self) -> EntryView {
        match self {
            Entry::Known { path, directory } => EntryView::Known {
                path: path@,
                directory: *directory,
            },
            Entry::Unknown => EntryView::Unknown,
        }
    }
}

/// The views of a sequence of entries.
pub open spec fn entry_views(entries: Seq<Entry>) -> Seq<EntryView> {
    entries.map_values(|e: Entry| e@)
}

/// What came of listing a root of the search path.
#[derive(Clone, Debug, PartialEq, Eq)]
pub enum Listing {
    /// The root does not exist or is not a directory.
    NotADirectory,
    /// The directory could not be opened; the text says why.
    Unreadable(String),
    /// The entries of the directory, in the order in which the file system gave them.
    Entries(Vec<Entry>),
}

/// A listing over texts.
pub enum ListingView {
    NotADirectory,
    Unreadable(Seq<char>),
    Entries(Seq<EntryView>),
}

impl View for Listing {
    type V = ListingView;

    open spec fn view(&self) -> ListingView {
        match self {
            Listing::NotADirectory => ListingView::NotADirectory,
            Listing::Unreadable(reason) => ListingView::Unreadable(reason@),
            Listing::Entries(entries) => ListingView::Entries(entry_views(entries@)),
        }
    }
}

/// A condition that ends the process at once.
#[derive(Clone, Copy, Debug, PartialEq, Eq)]
pub enum Fatal {
    /// The selected directory has no final component to name a session after.
    NoDirectoryName,
    /// The multiplexer did not create the session.
    SessionNotCreated,
    /// The user's configuration directory cannot be determined.
    NoConfigDirectory,
    /// The multiplexer did not take the command that runs the bootstrap script.
    ScriptNotRun,
    /// The multiplexer did not detach the client.
    ClientNotDetached,
    /// The program handed back an event that does not answer the action it was given.
    UnexpectedEvent,
}

/// An error that is reported to the user.
#[derive(Clone, Debug, PartialEq, Eq)]
pub enum Failure {
    /// Attaching failed while the search path was resolved.
    Attach(AttachError),
    /// Detaching was not possible.
    Detach(DetachError),
    /// A directory or a file could not be written; the text says why.
    Io(String),
}

/// A failure over texts.
pub enum FailureView {
    Attach(AttachErrorView),
    Detach(DetachError),
    Io(Seq<char>),
}

impl View for Failure {
    type V = FailureView;

    open spec fn view(&self) -> FailureView {
        match self {
            Failure::Attach(error) => FailureView::Attach(error@),
            Failure::Detach(error) => FailureView::Detach(*error),
            Failure::Io(reason) => FailureView::Io(reason@),
        }
    }
}

/// How an operation ended.
#[derive(Clone, Debug, PartialEq, Eq)]
pub enum Outcome {
    /// The operation is done, or the user chose nothing: the exit status is 0.
    Success,
    /// The error is printed and the exit status is 1.
    Failure(Failure),
    /// The process ends at once.
    Abort(Fatal),
}

/// An outcome over texts.
pub enum OutcomeView {
    Success,
    Failure(FailureView),
    Abort(Fatal),
}

impl View for Outcome {
    type V = OutcomeView;

    open spec fn view(&self) -> OutcomeView {
        match self {
            Outcome::Success => OutcomeView::Success,
            Outcome::Failure(failure) => OutcomeView::Failure(failure@),
            Outcome::Abort(fatal) => OutcomeView::Abort(*fatal),
        }
    }
}

/// What the program is to do next.
#[derive(Clone, Debug, PartialEq, Eq)]
pub enum Action {
    /// Read the environment variable; answered by `Event::Variable`.
    ReadVariable { name: String },
    /// List the directory; answered by `Event::Listing`.
    ListDirectory { root: String },
    /// Run the fuzzy finder with the arguments, write `input` to its standard input and read
    /// its standard output; answered by `Event::Picked`.
    Pick { arguments: Vec<String>, input: String },
    /// Run the multiplexer and wait for it to end; answered by `Event::Exited`.
    Multiplexer { request: Request },
    /// Find out whether the path exists; answered by `Event::Probed`.
    ProbeFile { path: String },
    /// Create the directory and those above it that are missing; answered by
    /// `Event::Completed`.
    CreateDirectory { path: String },
    /// Write the contents to the file; answered by `Event::Completed`.
    WriteFile { path: String, contents: String },
    /// Stop: the operation has ended.
    Finish { outcome: Outcome },
}

/// An action over texts.
pub enum ActionView {
    ReadVariable { name: Seq<char> },
    ListDirectory { root: Seq<char> },
    Pick { arguments: Seq<Seq<char>>, input: Seq<char> },
    Multiplexer { request: RequestView },
    ProbeFile { path: Seq<char> },
    CreateDirectory { path: Seq<char> },
    WriteFile { path: Seq<char>, contents: Seq<char> },
    Finish { outcome: OutcomeView },
}

impl View for Action {
    type V = ActionView;

    open spec fn view(&self) -> ActionView {
        match self {
            Action::ReadVariable { name } => ActionView::ReadVariable { name: name@ },
            Action::ListDirectory { root } => ActionView::ListDirectory { root: root@ },
            Action::Pick { arguments, input } => ActionView::Pick {
                arguments: texts(arguments@),
                input: input@,
            },
            Action::Multiplexer { request } => ActionView::Multiplexer { request: request@ },
            Action::ProbeFile { path } => ActionView::ProbeFile { path: path@ },
            Action::CreateDirectory { path } => ActionView::CreateDirectory { path: path@ },
            Action::WriteFile { path, contents } => ActionView::WriteFile {
                path: path@,
                contents: contents@,
            },
            Action::Finish { outcome } => ActionView::Finish { outcome: outcome@ },
        }
    }
}

/// How the action that was asked for went.
#[derive(Clone, Debug, PartialEq, Eq)]
pub enum Event {
    /// The value of the variable, or `None` where it is not set to a text.
    Variable(Option<String>),
    /// What listing the directory gave.
    Listing(Listing),
    /// What the fuzzy finder wrote to its standard output.
    Picked(String),
    /// The exit code of the multiplexer, or `None` where a signal ended it.
    Exited(Option<i32>),
    /// Whether the path exists.
    Probed(bool),
    /// The directory or file was written (`None`), or the reason why it was not.
    Completed(Option<String>),
}

/// An event over texts.
pub enum EventView {
    Variable(Option<Seq<char>>),
    Listing(ListingView),
    Picked(Seq<char>),
    Exited(Option<i32>),
    Probed(bool),
    Completed(Option<Seq<char>>),
}

impl View for Event {
    type V = EventView;

    open spec fn view(&self) -> EventView {
        match self {
            Event::Variable(value) => EventView::Variable(optional_text(*value)),
            Event::Listing(listing) => EventView::Listing(listing@),
            Event::Picked(output) => EventView::Picked(output@),
            Event::Exited(code) => EventView::Exited(*code),
            Event::Probed(exists) => EventView::Probed(*exists),
            Event::Completed(error) => EventView::Completed(optional_text(*error)),
        }
    }
}

/// The message that a fatal condition ends the process with.
pub open spec fn fatal_message(fatal: Fatal) -> Seq<char> {
    match fatal {
        Fatal::NoDirectoryName => "expected the selected directory to have a name"@,
        Fatal::SessionNotCreated => "failed to create tmux session"@,
        Fatal::NoConfigDirectory => "unable to determine the user's config directory"@,
        Fatal::ScriptNotRun => "failed to run configuration script"@,
        Fatal::ClientNotDetached => "failed to detach the tmux client"@,
        Fatal::UnexpectedEvent => "expected an event that answers the action"@,
    }
}

/// The message that a failure is reported with.
pub open spec fn failure_message(failure: FailureView) -> Seq<char> {
    match failure {
        FailureView::Attach(error) => crate::commands::attach::attach_message(error),
        FailureView::Detach(error) => crate::commands::detach::detach_message(error),
        FailureView::Io(reason) => reason,
    }
}

impl Fatal {
    /// The message to end the process with.
    pub fn message(&self) -> (message: String)
        ensures
            message@ == fatal_message(*self),
    {
        match self {
            Fatal::NoDirectoryName => "expected the selected directory to have a name".to_owned(),
            Fatal::SessionNotCreated => "failed to create tmux session".to_owned(),
            Fatal::NoConfigDirectory => "unable to determine the user's config directory".to_owned(),
            Fatal::ScriptNotRun => "failed to run configuration script".to_owned(),
            Fatal::ClientNotDetached => "failed to detach the tmux client".to_owned(),
            Fatal::UnexpectedEvent => "expected an event that answers the action".to_owned(),
        }
    }
}

impl Failure {
    /// The message to report the failure with.
    pub fn message(&self) -> (message: String)
        ensures
            message@ == failure_message(self@),
    {
        match self {
            Failure::Attach(error) => error.message(),
            Failure::Detach(error) => error.message(),
            Failure::Io(reason) => reason.clone(),
        }
    }
}

} // verus!
