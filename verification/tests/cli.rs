use paustdb::{dispatch, notice_text, parse_command, Action, Command, ParseError};

fn argv(items: &[&str]) -> Vec<String> {
    items.iter().map(|s| s.to_string()).collect()
}

#[test]
fn run_subcommand_starts_server() {
    let args = argv(&["paustdb", "run"]);
    let command = parse_command(&args).expect("the run subcommand parses");
    assert_eq!(command, Command::Run);
    assert_eq!(dispatch(command), Action::StartServer);
}

#[test]
fn no_subcommand_prints_notice() {
    let args = argv(&["paustdb"]);
    let command = parse_command(&args).expect("a bare invocation parses");
    assert_eq!(command, Command::NoSubcommand);
    assert_eq!(dispatch(command), Action::PrintNotice);
    assert_eq!(notice_text(), "none");
}

#[test]
fn unrecognized_subcommand_is_rejected() {
    let args = argv(&["paustdb", "foo"]);
    let error = parse_command(&args).expect_err("an unknown name is rejected");
    match error {
        ParseError::Rejected(message) => assert!(!message.is_empty()),
        ParseError::HelpOrVersion(_) => panic!("an unknown name is no display request"),
    }
}

#[test]
fn subcommand_match_is_case_sensitive() {
    let args = argv(&["paustdb", "Run"]);
    let error = parse_command(&args).expect_err("a case mismatch is rejected");
    assert!(matches!(error, ParseError::Rejected(_)));
}

#[test]
fn near_miss_of_the_subcommand_is_rejected() {
    let args = argv(&["paustdb", "runs"]);
    let error = parse_command(&args).expect_err("a near miss is rejected");
    assert!(matches!(error, ParseError::Rejected(_)));
}

#[test]
fn extra_argument_after_run_is_rejected() {
    let args = argv(&["paustdb", "run", "extra"]);
    let error = parse_command(&args).expect_err("run takes no arguments");
    assert!(matches!(error, ParseError::Rejected(_)));
}

#[test]
fn help_flag_is_a_display_request() {
    let args = argv(&["paustdb", "--help"]);
    let error = parse_command(&args).expect_err("help selects no command");
    match error {
        ParseError::HelpOrVersion(message) => assert!(!message.is_empty()),
        ParseError::Rejected(_) => panic!("help is no usage error"),
    }
}

#[test]
fn help_subcommand_is_a_display_request() {
    let args = argv(&["paustdb", "help"]);
    let error = parse_command(&args).expect_err("help selects no command");
    assert!(matches!(error, ParseError::HelpOrVersion(_)));
}

#[test]
fn version_flag_is_a_display_request_with_empty_message() {
    let args = argv(&["paustdb", "--version"]);
    let error = parse_command(&args).expect_err("version selects no command");
    match error {
        ParseError::HelpOrVersion(message) => assert!(message.is_empty()),
        ParseError::Rejected(_) => panic!("version is no usage error"),
    }
}

#[test]
fn unknown_flag_is_rejected() {
    let args = argv(&["paustdb", "--frobnicate"]);
    let error = parse_command(&args).expect_err("an unknown flag is rejected");
    assert!(matches!(error, ParseError::Rejected(_)));
}
