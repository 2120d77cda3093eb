//! Command-line layer of the PaustDB program.
//!
//! The grammar declares a single subcommand, `run`. Parsing an argument
//! list yields the command it selects, and the dispatcher maps every
//! command to the one action the process performs: starting the server,
//! or printing the placeholder notice when no subcommand was given. A
//! name outside the grammar never produces a command, so the dispatcher
//! has no undefined branch to fall into.

pub mod action;
pub mod cli;

pub use action::{action_for, dispatch, notice_text, Action};
pub use cli::{command_for, display_request, parse_command, recognized, Command, ParseError};
