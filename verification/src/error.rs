//! The failures that the shell reports.

use vstd::prelude::*;

verus! {

/// Why an external command could not be run.
#[derive(Debug, PartialEq, Eq)]
pub enum LaunchError {
    /// No child process could be created.
    Fork,
    /// The command's name or one of its arguments holds a NUL character and
    /// so cannot be handed to the operating system.
    Encoding,
    /// The child process could not enter the working directory; the text is
    /// the operating system's message.
    WorkingDirectory(String),
    /// The child process could not be replaced by the program; the text is
    /// the operating system's message.
    ImageReplacement(String),
    /// Waiting for the child process failed; the text is the operating
    /// system's message.
    Wait(String),
}

/// A [`LaunchError`] as plain values.
pub enum LaunchErrorView {
    Fork,
    Encoding,
    WorkingDirectory(Seq<char>),
    ImageReplacement(Seq<char>),
    Wait(Seq<char>),
}

impl View for LaunchError {
    type V = LaunchErrorView;

    open spec fn view(&self) -> LaunchErrorView {
        match self {
            LaunchError::Fork => LaunchErrorView::Fork,
            LaunchError::Encoding => LaunchErrorView::Encoding,
            LaunchError::WorkingDirectory(m) => LaunchErrorView::WorkingDirectory(m@),
            LaunchError::ImageReplacement(m) => LaunchErrorView::ImageReplacement(m@),
            LaunchError::Wait(m) => LaunchErrorView::Wait(m@),
        }
    }
}

/// Why a command failed.
#[derive(Debug, PartialEq, Eq)]
pub enum ShellError {
    /// The directory that `cd` aimed at could not be resolved or entered; the
    /// text says why.
    PathResolution(String),
    /// An external command could not be run.
    ExternalCommand(LaunchError),
}

/// A [`ShellError`] as plain values.
pub enum ShellErrorView {
    PathResolution(Seq<char>),
    ExternalCommand(LaunchErrorView),
}

impl View for ShellError {
    type V = ShellErrorView;

    open spec fn view(&self) -> ShellErrorView {
        match self {
            ShellError::PathResolution(m) => ShellErrorView::PathResolution(m@),
            ShellError::ExternalCommand(e) => ShellErrorView::ExternalCommand(e@),
        }
    }
}

/// Why no shell session could be started.
#[derive(Debug, Clone, Copy, PartialEq, Eq, Structural)]
pub enum StartupError {
    /// The environment names no home directory.
    MissingHome,
    /// The home directory that the environment names is not an absolute path.
    RelativeHome,
}

/// The message for a failed fork.
pub open spec fn fork_message() -> Seq<char> {
    "Failed to fork process"@
}

/// The message for a name or argument that holds a NUL character.
pub open spec fn encoding_message() -> Seq<char> {
    "Command name or argument holds a NUL character"@
}

/// The message that tells of the launch failure `e`.
pub open spec fn launch_message(e: LaunchErrorView) -> Seq<char> {
    match e {
        LaunchErrorView::Fork => fork_message(),
        LaunchErrorView::Encoding => encoding_message(),
        LaunchErrorView::WorkingDirectory(m) => m,
        LaunchErrorView::ImageReplacement(m) => m,
        LaunchErrorView::Wait(m) => m,
    }
}

/// The message that tells of the failure `e`.
pub open spec fn shell_message(e: ShellErrorView) -> Seq<char> {
    match e {
        ShellErrorView::PathResolution(m) => m,
        ShellErrorView::ExternalCommand(l) => launch_message(l),
    }
}

impl LaunchError {
    /// The message to show for this failure.
    pub fn message(&self) -> (r: String)
        ensures
            r@ == launch_message(self@),
    {
        match self {
            LaunchError::Fork => "Failed to fork process".to_owned(),
            LaunchError::Encoding => "Command name or argument holds a NUL character".to_owned(),
            LaunchError::WorkingDirectory(m) => m.clone(),
            LaunchError::ImageReplacement(m) => m.clone(),
            LaunchError::Wait(m) => m.clone(),
        }
    }
}

impl ShellError {
    /// The message to show for this failure.
    pub fn message(&self) -> (r: String)
        ensures
            r@ == shell_message(self@),
    {
        match self {
            ShellError::PathResolution(m) => m.clone(),
            ShellError::ExternalCommand(e) => e.message(),
        }
    }
}

impl StartupError {
    /// The message to show for this failure.
    pub fn message(&self) -> (r: String)
        ensures
            r@ == match *self {
                StartupError::MissingHome => "HOME is not set"@,
                StartupError::RelativeHome => "HOME is not an absolute path"@,
            },
    {
        match self {
            StartupError::MissingHome => "HOME is not set".to_owned(),
            StartupError::RelativeHome => "HOME is not an absolute path".to_owned(),
        }
    }
}

} // verus!
