use vstd::prelude::*;

verus! {

/// Which mode of operation the command line selected.
#[derive(Clone, Copy, PartialEq, Eq, Structural, Debug)]
pub enum Command {
    /// The `run` subcommand: start the database server.
    Run,
    /// No subcommand was supplied.
    NoSubcommand,
}

/// Why parsing did not select a command.
#[derive(Clone, PartialEq, Eq, Debug)]
pub enum ParseError {
    /// A help or version request: the parser rendered the text itself.
    /// The message belongs on standard output and the process exits
    /// successfully. For a version request the parser has already
    /// written the version line to standard output and the message
    /// that remains is empty.
    HelpOrVersion(String),
    /// Input the grammar rejects: the message belongs on standard
    /// error and the process exits with failure.
    Rejected(String),
}

/// The subcommand names the grammar declares. There is exactly one.
pub open spec fn recognized(name: Seq<char>) -> bool {
    name == "run"@
}

/// The argument forms that ask the parser to render help or version
/// text instead of matching a subcommand: the built-in help
/// subcommand and the four built-in flags.
pub open spec fn display_request(arg: Seq<char>) -> bool {
    arg == "help"@ || arg == "--help"@ || arg == "-h"@ || arg == "--version"@ || arg == "-V"@
}

/// The command, if any, that a parsed subcommand name stands for: no
/// name at all selects `NoSubcommand`, the one recognized name selects
/// `Run`, and every other name lies outside the grammar and selects
/// nothing.
pub open spec fn command_for(name: Option<Seq<char>>) -> Option<Command> {
    match name {
        Option::None => Option::Some(Command::NoSubcommand),
        Option::Some(s) => if recognized(s) {
            Option::Some(Command::Run)
        } else {
            Option::None
        },
    }
}

/// A name the grammar does not recognize yields no command at all: it
/// is rejected during parsing, before any dispatch, so no action is
/// ever computed for it.
pub proof fn lemma_unrecognized_name_rejected(name: Seq<char>)
    requires
        !recognized(name),
    ensures
        command_for(Option::Some(name)) is None,
{
}

/// Relies on clap's `App::get_matches_from_safe`,
/// `ArgMatches::subcommand_name` and `Error::use_stderr`: an
/// application declaring the single subcommand `run` matches only
/// that name; the binary name alone parses successfully with no
/// subcommand; any other second argument but the trailing-values
/// marker `--` comes back as `Err`. The help and version forms come
/// back with the kinds clap answers on standard output with a
/// successful exit (for a version request clap writes the version
/// line to standard output inside the call and leaves the message
/// empty); everything else clap rejects with a usage message for
/// standard error and a failure exit, in particular every second
/// argument that starts with no `-` and names no declared subcommand.
#[verifier::external_body]
fn match_subcommand(args: &Vec<String>) -> (r: Result<Option<String>, ParseError>)
    ensures
        r is Ok && r->Ok_0 is Some ==> recognized(r->Ok_0->0@),
        args@.len() == 1 ==> r is Ok && r->Ok_0 is None,
        args@.len() == 2 && args@[1]@ == "run"@ ==> r is Ok && r->Ok_0 is Some
            && r->Ok_0->0@ == "run"@,
        args@.len() == 2 && !recognized(args@[1]@) && args@[1]@ != "--"@ ==> r is Err,
        args@.len() == 2 && display_request(args@[1]@) ==> r is Err
            && r->Err_0 is HelpOrVersion,
        args@.len() == 2 && args@[1]@.len() > 0 && args@[1]@[0] != '-'
            && !recognized(args@[1]@) && args@[1]@ != "help"@ ==> r is Err
            && r->Err_0 is Rejected,
{
    let app = clap::App::new("PaustDB")
        .about("Decentralized TSDB specialized for real-time streaming")
        .version("0.0.1")
        .author("Andrew joo")
        .subcommand(clap::SubCommand::with_name("run").about("Run paustdb server"));
    match app.get_matches_from_safe(args.iter()) {
        Ok(matches) => Ok(matches.subcommand_name().map(|name| name.to_string())),
        Err(e) if e.use_stderr() => Err(ParseError::Rejected(e.message)),
        Err(e) => Err(ParseError::HelpOrVersion(e.message)),
    }
}

/// Parse a full argument list (binary name first) into the command it
/// selects. A second argument other than `run` (and other than the
/// trailing-values marker `--`) never selects a command: it is
/// rejected here, before any dispatch, as a `HelpOrVersion` request
/// or a `Rejected` usage error. The grammar admits no subcommand name
/// but `run`, so a matched name needs no further inspection: the
/// branch that would handle any other matched name is not merely
/// unreachable at run time, it does not exist.
pub fn parse_command(args: &Vec<String>) -> (r: Result<Command, ParseError>)
    ensures
        args@.len() == 1 ==> r matches Ok(Command::NoSubcommand),
        args@.len() == 2 && args@[1]@ == "run"@ ==> r matches Ok(Command::Run),
        args@.len() == 2 && !recognized(args@[1]@) && args@[1]@ != "--"@ ==> r is Err,
        args@.len() == 2 && display_request(args@[1]@) ==> r is Err
            && r->Err_0 is HelpOrVersion,
        args@.len() == 2 && args@[1]@.len() > 0 && args@[1]@[0] != '-'
            && !recognized(args@[1]@) && args@[1]@ != "help"@ ==> r is Err
            && r->Err_0 is Rejected,
{
    match match_subcommand(args) {
        Ok(Some(_)) => Ok(Command::Run),
        Ok(None) => Ok(Command::NoSubcommand),
        Err(e) => Err(e),
    }
}

} // verus!
