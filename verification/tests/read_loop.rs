use mash::command::Command;
use mash::error::{LaunchError, ShellError};
use mash::session::{conclude, next_step, Aftermath, LineResult, Step};

fn line(text: &str) -> LineResult {
    LineResult::Line(text.to_string())
}

#[test]
fn an_empty_line_is_passed_over() {
    assert_eq!(next_step(&line("")), Step::Prompt);
}

#[test]
fn exit_ends_the_session() {
    assert_eq!(next_step(&line("exit")), Step::Leave { status: 0, notice: false });
    assert_eq!(next_step(&line("  exit  ")), Step::Leave { status: 0, notice: false });
    assert_eq!(next_step(&line("\texit\n")), Step::Leave { status: 0, notice: false });
}

#[test]
fn exit_with_arguments_is_a_command() {
    assert_eq!(
        next_step(&line("exit now")),
        Step::Dispatch { command: Command::new("exit".to_string(), vec!["now".to_string()]) }
    );
    assert_eq!(
        next_step(&line("exits")),
        Step::Dispatch { command: Command::new("exits".to_string(), Vec::new()) }
    );
}

#[test]
fn a_line_of_whitespace_is_dispatched_as_a_blank_command() {
    assert_eq!(
        next_step(&line("   ")),
        Step::Dispatch { command: Command::new(String::new(), Vec::new()) }
    );
}

#[test]
fn a_line_is_parsed_and_dispatched() {
    assert_eq!(
        next_step(&line("ls -l  /tmp")),
        Step::Dispatch { command: Command::parse("ls -l /tmp") }
    );
}

#[test]
fn the_end_of_input_ends_the_session_with_a_notice() {
    assert_eq!(next_step(&LineResult::EndOfInput), Step::Leave { status: 0, notice: true });
}

#[test]
fn a_failure_to_read_is_reported() {
    assert_eq!(
        next_step(&LineResult::ReadError("Interrupted".to_string())),
        Step::Report { message: "Interrupted".to_string() }
    );
}

#[test]
fn a_command_that_succeeded_is_remembered() {
    assert_eq!(conclude(&Ok(())), Aftermath::Remember);
}

#[test]
fn a_command_that_failed_is_reported() {
    assert_eq!(
        conclude(&Err(ShellError::PathResolution("No such file or directory".to_string()))),
        Aftermath::Report { message: "No such file or directory".to_string() }
    );
    assert_eq!(
        conclude(&Err(ShellError::ExternalCommand(LaunchError::Fork))),
        Aftermath::Report { message: "Failed to fork process".to_string() }
    );
}
