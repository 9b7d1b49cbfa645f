//! What passes between the shell and the code that drives it. The shell
//! decides and asks; the driver does the work on the operating system and
//! tells what came of it.

use crate::error::{ShellError, ShellErrorView};
use vstd::prelude::*;

verus! {

/// The exit status of a child process that could not start its program.
pub const CHILD_FAILURE_STATUS: i32 = 127;

/// The message for a resolved directory that is not an absolute path.
pub open spec fn unresolved_message() -> Seq<char> {
    "Resolved directory is not an absolute path"@
}

/// What the shell asks of its driver.
#[derive(Debug, PartialEq, Eq)]
pub enum Request {
    /// The command is done, with this result. The shell is idle again.
    Finished(Result<(), ShellError>),
    /// Resolve `target` to its canonical absolute form.
    Resolve { target: String },
    /// Make `path` the working directory of this process.
    ChangeDirectory { path: String },
    /// Create a child process.
    Fork,
    /// Wait until the child process `child` has ended.
    Wait { child: i32 },
    /// Replace this process, the child, by `program`, run with `argv`.
    ReplaceImage { program: String, argv: Vec<String> },
    /// Report `error` and end this process, the child, with `status`.
    Terminate { status: i32, error: ShellError },
    /// Nothing new: what was handed in answers no request that is open or
    /// came while one was. The shell is as it was.
    Ignored,
}

/// A [`Request`] as plain values.
pub enum RequestView {
    Finished(Result<(), ShellErrorView>),
    Resolve { target: Seq<char> },
    ChangeDirectory { path: Seq<char> },
    Fork,
    Wait { child: i32 },
    ReplaceImage { program: Seq<char>, argv: Seq<Seq<char>> },
    Terminate { status: i32, error: ShellErrorView },
    Ignored,
}

impl View for Request {
    type V = RequestView;

    open spec fn view(&self) -> RequestView {
        match self {
            Request::Finished(Ok(())) => RequestView::Finished(Ok(())),
            Request::Finished(Err(e)) => RequestView::Finished(Err(e@)),
            Request::Resolve { target } => RequestView::Resolve { target: target@ },
            Request::ChangeDirectory { path } => RequestView::ChangeDirectory { path: path@ },
            Request::Fork => RequestView::Fork,
            Request::Wait { child } => RequestView::Wait { child: *child },
            Request::ReplaceImage { program, argv } => RequestView::ReplaceImage {
                program: program@,
                argv: argv.deep_view(),
            },
            Request::Terminate { status, error } => RequestView::Terminate {
                status: *status,
                error: error@,
            },
            Request::Ignored => RequestView::Ignored,
        }
    }
}

/// What the driver tells the shell of the work it was asked to do.
#[derive(Debug, PartialEq, Eq)]
pub enum Reply {
    /// The target resolved to this canonical path.
    Resolved(String),
    /// The working directory of this process was changed.
    DirectoryChanged,
    /// A child process was created, and this process is its parent; `child`
    /// is the child's process id.
    ForkedParent { child: i32 },
    /// A child process was created, and this process is that child.
    ForkedChild,
    /// The wait returned: the child process has ended.
    ChildExited,
    /// The work failed; the text is the operating system's message.
    Failed(String),
}

/// A [`Reply`] as plain values.
pub enum ReplyView {
    Resolved(Seq<char>),
    DirectoryChanged,
    ForkedParent { child: i32 },
    ForkedChild,
    ChildExited,
    Failed(Seq<char>),
}

impl View for Reply {
    type V = ReplyView;

    open spec fn view(&self) -> ReplyView {
        match self {
            Reply::Resolved(p) => ReplyView::Resolved(p@),
            Reply::DirectoryChanged => ReplyView::DirectoryChanged,
            Reply::ForkedParent { child } => ReplyView::ForkedParent { child: *child },
            Reply::ForkedChild => ReplyView::ForkedChild,
            Reply::ChildExited => ReplyView::ChildExited,
            Reply::Failed(m) => ReplyView::Failed(m@),
        }
    }
}

} // verus!
