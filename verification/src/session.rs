//! What the read loop does with a line that was read, and with the result of
//! a command.

use crate::command::{parse_line, Command, CommandView};
use crate::error::{shell_message, ShellError, ShellErrorView};
use crate::text::{same_text, trim, trimmed};
use vstd::prelude::*;

verus! {

/// What reading a line gave.
#[derive(Debug, PartialEq, Eq)]
pub enum LineResult {
    /// A line of input, without its line end.
    Line(String),
    /// The input has ended.
    EndOfInput,
    /// Reading failed; the text says why.
    ReadError(String),
}

/// A [`LineResult`] as plain values.
pub enum LineResultView {
    Line(Seq<char>),
    EndOfInput,
    ReadError(Seq<char>),
}

impl View for LineResult {
    type V = LineResultView;

    open spec fn view(&self) -> LineResultView {
        match self {
            LineResult::Line(l) => LineResultView::Line(l@),
            LineResult::EndOfInput => LineResultView::EndOfInput,
            LineResult::ReadError(m) => LineResultView::ReadError(m@),
        }
    }
}

/// What the read loop does next.
#[derive(Debug, PartialEq, Eq)]
pub enum Step {
    /// Nothing was entered: read the next line.
    Prompt,
    /// Leave the loop and end the process with `status`; `notice` says
    /// whether to tell that the input has ended.
    Leave { status: i32, notice: bool },
    /// Hand `command` to the session.
    Dispatch { command: Command },
    /// Report `message`, then read the next line.
    Report { message: String },
}

/// A [`Step`] as plain values.
pub enum StepView {
    Prompt,
    Leave { status: i32, notice: bool },
    Dispatch { command: CommandView },
    Report { message: Seq<char> },
}

impl View for Step {
    type V = StepView;

    open spec fn view(&self) -> StepView {
        match self {
            Step::Prompt => StepView::Prompt,
            Step::Leave { status, notice } => StepView::Leave { status: *status, notice: *notice },
            Step::Dispatch { command } => StepView::Dispatch { command: command@ },
            Step::Report { message } => StepView::Report { message: message@ },
        }
    }
}

/// The word that ends the session.
pub open spec fn exit_word() -> Seq<char> {
    "exit"@
}

/// What the read loop does with what reading a line gave. An empty line is
/// passed over. A line that is `exit` once the white space around it is
/// taken away ends the session with status 0, and so does the end of the
/// input, with a notice. Every other line is parsed and dispatched. A
/// failure to read is reported, and the loop goes on.
pub open spec fn step_for(input: LineResultView) -> StepView {
    match input {
        LineResultView::Line(l) => if l.len() == 0 {
            StepView::Prompt
        } else if trimmed(l) == exit_word() {
            StepView::Leave { status: 0, notice: false }
        } else {
            StepView::Dispatch { command: parse_line(l) }
        },
        LineResultView::EndOfInput => StepView::Leave { status: 0, notice: true },
        LineResultView::ReadError(m) => StepView::Report { message: m },
    }
}

/// Decides what the read loop does with what reading a line gave.
pub fn next_step(input: &LineResult) -> (r: Step)
    ensures
        r@ == step_for(input@),
{
    match input {
        LineResult::Line(line) => {
            if line.as_str().is_empty() {
                Step::Prompt
            } else if same_text(trim(line.as_str()), "exit") {
                Step::Leave { status: 0, notice: false }
            } else {
                Step::Dispatch { command: Command::parse(line.as_str()) }
            }
        },
        LineResult::EndOfInput => Step::Leave { status: 0, notice: true },
        LineResult::ReadError(message) => Step::Report { message: message.clone() },
    }
}

/// What follows a command that is done.
#[derive(Debug, PartialEq, Eq)]
pub enum Aftermath {
    /// The command succeeded: its line goes into the history.
    Remember,
    /// The command failed: `message` is reported, and its line is forgotten.
    Report { message: String },
}

/// An [`Aftermath`] as plain values.
pub enum AftermathView {
    Remember,
    Report { message: Seq<char> },
}

impl View for Aftermath {
    type V = AftermathView;

    open spec fn view(&self) -> AftermathView {
        match self {
            Aftermath::Remember => AftermathView::Remember,
            Aftermath::Report { message } => AftermathView::Report { message: message@ },
        }
    }
}

/// What follows a command that ended with `outcome`: the line of one that
/// succeeded is remembered, the failure of one that failed is reported.
/// Either way the loop goes on.
pub open spec fn aftermath_of(outcome: Result<(), ShellErrorView>) -> AftermathView {
    match outcome {
        Ok(_) => AftermathView::Remember,
        Err(e) => AftermathView::Report { message: shell_message(e) },
    }
}

/// Decides what follows a command that ended with `outcome`.
pub fn conclude(outcome: &Result<(), ShellError>) -> (r: Aftermath)
    ensures
        r@ == aftermath_of(
            match *outcome {
                Ok(_) => Ok(()),
                Err(e) => Err(e@),
            },
        ),
{
    match outcome {
        Ok(_) => Aftermath::Remember,
        Err(e) => Aftermath::Report { message: e.message() },
    }
}

} // verus!
