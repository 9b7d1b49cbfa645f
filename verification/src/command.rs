//! A command line taken apart: the command's name and its arguments.

use crate::text::{split_words, words};
use vstd::prelude::*;

verus! {

/// A parsed command: the name of a built-in or of a program, and the
/// arguments that follow it. A blank line gives a command with an empty name.
#[derive(Debug, PartialEq, Eq)]
pub struct Command {
    pub name: String,
    pub args: Vec<String>,
}

/// What a [`Command`] holds, as plain texts.
pub struct CommandView {
    pub name: Seq<char>,
    pub args: Seq<Seq<char>>,
}

impl View for Command {
    type V = CommandView;

    open spec fn view(&self) -> CommandView {
        CommandView { name: self.name@, args: self.args.deep_view() }
    }
}

/// The command that a line stands for: its first word is the name, the words
/// after it are the arguments in their order. A blank line has no words and
/// gives the empty name with no arguments.
pub open spec fn parse_line(line: Seq<char>) -> CommandView {
    let w = words(line);
    if w.len() == 0 {
        CommandView { name: Seq::empty(), args: Seq::empty() }
    } else {
        CommandView { name: w[0], args: w.skip(1) }
    }
}

impl Command {
    /// A command with the given name and arguments.
    pub fn new(name: String, args: Vec<String>) -> (r: Self)
        ensures
            r@ == (CommandView { name: name@, args: args.deep_view() }),
            r.name == name,
            r.args == args,
    {
        Self { name, args }
    }

    /// Splits `line` at white space into a command name and its arguments.
    pub fn parse(line: &str) -> (r: Self)
        ensures
            r@ == parse_line(line@),
    {
        let mut parts = split_words(line);
        if parts.len() == 0 {
            assert(parts.deep_view() =~= Seq::<Seq<char>>::empty());
            Command::new(String::new(), parts)
        } else {
            let ghost all = parts.deep_view();
            let name = parts.remove(0);
            assert(parts.deep_view() =~= all.skip(1));
            Command::new(name, parts)
        }
    }

    /// Whether this is the command of a blank line: the name is empty.
    pub fn is_blank(&self) -> (r: bool)
        ensures
            r == (self@.name.len() == 0),
    {
        self.name.as_str().is_empty()
    }
}

} // verus!
