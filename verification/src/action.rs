use vstd::prelude::*;

use crate::cli::{command_for, recognized, Command};

verus! {

/// What the process does for a parsed command.
#[derive(Clone, Copy, PartialEq, Eq, Structural, Debug)]
pub enum Action {
    /// Call the server's blocking start routine.
    StartServer,
    /// Print the placeholder notice and exit successfully.
    PrintNotice,
}

/// The action each command calls for: `run` starts the server, an
/// absent subcommand prints the notice.
pub open spec fn action_for(c: Command) -> Action {
    match c {
        Command::Run => Action::StartServer,
        Command::NoSubcommand => Action::PrintNotice,
    }
}

/// Route a parsed command to its action. The match is exhaustive over
/// the commands the grammar can produce, so no command reaches an
/// undefined branch.
pub fn dispatch(c: Command) -> (a: Action)
    ensures
        a == action_for(c),
{
    match c {
        Command::Run => Action::StartServer,
        Command::NoSubcommand => Action::PrintNotice,
    }
}

/// The notice printed when no subcommand was supplied.
pub fn notice_text() -> (s: String)
    ensures
        s@ == "none"@,
{
    "none".to_owned()
}

/// The server's start action arises from exactly one command-line
/// shape: the recognized `run` subcommand. Every other argument list
/// either selects the notice or selects nothing at all.
pub proof fn lemma_server_started_only_by_run(name: Option<Seq<char>>)
    ensures
        (command_for(name) matches Some(c) && action_for(c) == Action::StartServer)
            <==> (name matches Some(s) && recognized(s)),
{
}

/// The notice action arises exactly when no subcommand was supplied,
/// and then the server is not started.
pub proof fn lemma_notice_only_without_subcommand(name: Option<Seq<char>>)
    ensures
        (command_for(name) matches Some(c) && action_for(c) == Action::PrintNotice)
            <==> name is None,
{
}

} // verus!
