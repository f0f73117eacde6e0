//! A session launcher for a terminal multiplexer. From a search path of project directories
//! the user picks one; a session that is named after the directory is created unless it
//! exists, a new session runs a bootstrap script once, and the terminal is connected to the
//! session.
//!
//! The library decides and the program acts: every command is a sequence of steps, each with
//! an action for the program to perform, whose outcome gives the next step.

use vstd::prelude::*;
use crate::commands::{first_step, handle_command, Command, Step};

pub mod bootstrap;
pub mod commands;
pub mod model;
pub mod multiplexer;
pub mod path;
pub mod protocol;
pub mod resolver;
pub mod selector;
pub mod session;
pub mod text;

verus! {

/// The arguments of the program.
#[derive(Clone, Debug, PartialEq, Eq)]
pub struct Args {
    /// The command to run.
    pub command: Command,
}

/// Starts the command that the arguments name: gives its first step.
pub fn try_main(args: &Args) -> (step: Step)
    ensures
        step@ == first_step(args.command),
{
    handle_command(&args.command)
}

} // verus!
