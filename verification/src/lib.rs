//! A console for daemon applications: a prompt with an editable line and a
//! history, commands that run in place or in the background, and log
//! messages that leave the line being typed intact.
//!
//! The library is the console's logic and does no input or output of its
//! own. A driver feeds it keys, actions and results, and carries out the
//! writes and publications that the console queues (see [`output`]).
//!
//! A run is [`TerminalApp::start_run`], then turn after turn of the loop,
//! then [`TerminalApp::finish_run`]. In each turn the driver
//!
//! 1. hands over every action waiting on the action bus and at most one
//!    result of a command in the background ([`TerminalApp::begin_tick`]);
//! 2. waits [`model::POLL_WAIT_MILLIS`] for the terminal and hands over what
//!    it had ([`TerminalApp::process_poll`]);
//! 3. if a line was submitted, does what is due for it (see [`Dispatch`]) and
//!    hands back what came out ([`TerminalApp::complete_command`]);
//! 4. asks whether the loop ends ([`TerminalApp::end_tick`]).
//!
//! After each step it takes the queue of outputs and carries it out
//! ([`TerminalApp::take_outputs`]).
//!
//! The logic is verified with Verus. [`model`] states what the console does;
//! [`console`] holds the console that runs and is proved to do just that;
//! [`laws`] states what follows for every console.
pub mod command;
pub mod console;
pub mod context;
pub mod editor;
pub mod events;
pub mod keys;
pub mod laws;
pub mod logger;
pub mod model;
pub mod output;
pub mod text;
pub mod utils;
pub mod width;

pub use crate::command::{CommandHandlerType, CommandResult, Dispatch, RunningCommand};
pub use crate::console::{execute_command, AppAction, Outcome, TerminalApp};
pub use crate::context::ConsoleContext;
