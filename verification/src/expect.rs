//! Values that a program cannot go on without.

use vstd::prelude::*;
use vstd::string::to_string_from_display_ensures;

verus! {

/// The exit status of a process that ends for want of a value.
pub const FATAL_STATUS: i32 = 1;

/// Why the process is to end: the lines to log, in order, and the exit status.
#[derive(Debug, PartialEq, Eq)]
pub struct Fatal {
    pub lines: Vec<String>,
    pub status: i32,
}

/// The lines to log for want of a value: the message `msg`, unless it is
/// empty, then what the failure itself says.
pub open spec fn complaint(msg: Seq<char>, failure: Seq<char>) -> Seq<Seq<char>> {
    if msg.len() == 0 {
        seq![failure]
    } else {
        seq![msg, failure]
    }
}

/// Values that may be absent, from which the value is taken where it is
/// there, and the grounds for ending the process where it is not.
pub trait LogExpect<T>: Sized {
    /// The value, where there is one.
    spec fn found(&self) -> Option<T>;

    /// Whether `lines` are what is to be logged where there is no value and
    /// the caller's message is `msg`.
    spec fn missed(&self, msg: Seq<char>, lines: Seq<Seq<char>>) -> bool;

    /// Gives the value, or, where there is none, the lines to log and the
    /// status to end the process with.
    fn log_expect(self, msg: &str) -> (r: Result<T, Fatal>)
        ensures
            match r {
                Ok(v) => self.found() == Some(v),
                Err(f) => self.found() is None && f.status == FATAL_STATUS && self.missed(
                    msg@,
                    f.lines.deep_view(),
                ),
            },
    ;
}

impl<T> LogExpect<T> for Option<T> {
    open spec fn found(&self) -> Option<T> {
        *self
    }

    /// For want of an optional value the message alone is logged.
    open spec fn missed(&self, msg: Seq<char>, lines: Seq<Seq<char>>) -> bool {
        lines == seq![msg]
    }

    fn log_expect(self, msg: &str) -> (r: Result<T, Fatal>) {
        match self {
            Some(v) => Ok(v),
            None => {
                let mut lines: Vec<String> = Vec::new();
                lines.push(msg.to_owned());
                assert(lines.deep_view() =~= seq![msg@]);
                Err(Fatal { lines, status: FATAL_STATUS })
            },
        }
    }
}

impl<T, E: core::fmt::Display> LogExpect<T> for Result<T, E> {
    open spec fn found(&self) -> Option<T> {
        match *self {
            Ok(v) => Some(v),
            Err(_) => None,
        }
    }

    /// For a failure the message is logged, unless it is empty, and then the
    /// failure as it displays itself.
    open spec fn missed(&self, msg: Seq<char>, lines: Seq<Seq<char>>) -> bool {
        match self {
            Ok(_) => false,
            Err(e) => exists|text: String| #[trigger]
                to_string_from_display_ensures::<E>(e, text) && lines == complaint(msg, text@),
        }
    }

    fn log_expect(self, msg: &str) -> (r: Result<T, Fatal>) {
        match self {
            Ok(v) => Ok(v),
            Err(e) => {
                let text = e.to_string();
                let ghost shown = text@;
                let mut lines: Vec<String> = Vec::new();
                if !msg.is_empty() {
                    lines.push(msg.to_owned());
                }
                lines.push(text);
                proof {
                    assert(lines.deep_view() =~= complaint(msg@, shown));
                }
                Err(Fatal { lines, status: FATAL_STATUS })
            },
        }
    }
}

} // verus!
