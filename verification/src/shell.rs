//! The shell session: the directory it is in, its prompt, and how each
//! command is carried out step by step.
//!
//! The session does no work on the operating system itself. [`Shell::execute`]
//! takes a command and answers with a [`Request`]; the driver does what is
//! asked and hands the outcome to [`Shell::resume`], which answers with the
//! next request, until one is [`Request::Finished`].

use crate::command::{Command, CommandView};
use crate::error::{LaunchError, LaunchErrorView, ShellError, ShellErrorView, StartupError};
use crate::launcher::{launch_plan, LaunchPlan, LaunchPlanView};
use crate::path::{change_target, is_absolute, is_absolute_path, prompt_for, prompt_of, target_of_change};
use crate::protocol::{
    unresolved_message, Reply, ReplyView, Request, RequestView, CHILD_FAILURE_STATUS,
};
use crate::text::same_text;
use vstd::prelude::*;

verus! {

/// How far the command in hand has come.
#[derive(Debug)]
enum Phase {
    Idle,
    Resolving,
    Entering { path: String },
    Forking { plan: LaunchPlan },
    Waiting { child: i32 },
    ChildEntering { plan: LaunchPlan },
    ChildReplacing,
    ChildTerminated,
}

/// How far the command in hand has come.
pub enum PhaseView {
    /// No command is in hand.
    Idle,
    /// `cd`: the target is being resolved.
    Resolving,
    /// `cd`: the target resolved to `path`, which is being entered.
    Entering { path: Seq<char> },
    /// An external command: a child process is being created.
    Forking { plan: LaunchPlanView },
    /// An external command, in the parent: the child process `child` runs
    /// and is waited for.
    Waiting { child: i32 },
    /// An external command, in the child: the working directory is being
    /// entered.
    ChildEntering { plan: LaunchPlanView },
    /// An external command, in the child: the program is being started.
    ChildReplacing,
    /// An external command, in the child: the program could not be started
    /// and the process is to end.
    ChildTerminated,
}

impl View for Phase {
    type V = PhaseView;

    closed spec fn view(&self) -> PhaseView {
        match self {
            Phase::Idle => PhaseView::Idle,
            Phase::Resolving => PhaseView::Resolving,
            Phase::Entering { path } => PhaseView::Entering { path: path@ },
            Phase::Forking { plan } => PhaseView::Forking { plan: plan@ },
            Phase::Waiting { child } => PhaseView::Waiting { child: *child },
            Phase::ChildEntering { plan } => PhaseView::ChildEntering { plan: plan@ },
            Phase::ChildReplacing => PhaseView::ChildReplacing,
            Phase::ChildTerminated => PhaseView::ChildTerminated,
        }
    }
}

/// A shell session.
#[derive(Debug)]
pub struct Shell {
    prompt: String,
    current_directory: String,
    home_directory: String,
    phase: Phase,
}

/// A [`Shell`] as plain values.
pub struct ShellView {
    pub prompt: Seq<char>,
    pub current_directory: Seq<char>,
    pub home_directory: Seq<char>,
    pub phase: PhaseView,
}

impl ShellView {
    /// What holds of every session: the prompt shows the current directory,
    /// the current and the home directory are absolute paths, a directory
    /// about to be entered is absolute, and a command about to be launched
    /// has a sound plan that starts in the current directory.
    pub open spec fn wf(self) -> bool {
        &&& self.prompt == prompt_of(self.current_directory)
        &&& is_absolute_path(self.current_directory)
        &&& is_absolute_path(self.home_directory)
        &&& match self.phase {
            PhaseView::Entering { path } => is_absolute_path(path),
            PhaseView::Forking { plan } => plan.wf() && plan.workdir == self.current_directory,
            PhaseView::ChildEntering { plan } => plan.wf() && plan.workdir
                == self.current_directory,
            _ => true,
        }
    }

    /// Whether no command is in hand.
    pub open spec fn idle(self) -> bool {
        self.phase is Idle
    }

    /// Whether this process is the child that was made for an external
    /// command.
    pub open spec fn in_child(self) -> bool {
        self.phase is ChildEntering || self.phase is ChildReplacing
            || self.phase is ChildTerminated
    }

    /// The same session in another phase.
    pub open spec fn in_phase(self, phase: PhaseView) -> ShellView {
        ShellView { phase, ..self }
    }

    /// The same session, idle in the directory `dir`.
    pub open spec fn moved_to(self, dir: Seq<char>) -> ShellView {
        ShellView {
            prompt: prompt_of(dir),
            current_directory: dir,
            home_directory: self.home_directory,
            phase: PhaseView::Idle,
        }
    }
}

/// The name of the built-in command that changes the directory.
pub open spec fn change_directory_name() -> Seq<char> {
    "cd"@
}

/// The session that starts with the home directory `home`, or why none
/// starts: no home directory is named, or it is not an absolute path.
pub open spec fn started(home: Option<Seq<char>>) -> Result<ShellView, StartupError> {
    match home {
        None => Err(StartupError::MissingHome),
        Some(h) => if is_absolute_path(h) {
            Ok(
                ShellView {
                    prompt: prompt_of(h),
                    current_directory: h,
                    home_directory: h,
                    phase: PhaseView::Idle,
                },
            )
        } else {
            Err(StartupError::RelativeHome)
        },
    }
}

/// What becomes of the session `s` when the command `c` is handed to it, and
/// what it asks for.
///
/// While another command is in hand, `c` is ignored. A blank command is done
/// at once. `cd` asks for its target to be resolved. Every other command is
/// an external one: it asks for a child process, or fails at once where its
/// name or an argument cannot be handed to the operating system.
pub open spec fn executed(s: ShellView, c: CommandView) -> (ShellView, RequestView) {
    if !s.idle() {
        (s, RequestView::Ignored)
    } else if c.name.len() == 0 {
        (s, RequestView::Finished(Ok(())))
    } else if c.name == change_directory_name() {
        (
            s.in_phase(PhaseView::Resolving),
            RequestView::Resolve {
                target: change_target(s.current_directory, s.home_directory, c.args),
            },
        )
    } else {
        match launch_plan(c, s.current_directory) {
            Ok(plan) => (s.in_phase(PhaseView::Forking { plan }), RequestView::Fork),
            Err(e) => (s, RequestView::Finished(Err(ShellErrorView::ExternalCommand(e)))),
        }
    }
}

/// Whether `reply` answers the request that is open in `phase`.
pub open spec fn expects(phase: PhaseView, reply: ReplyView) -> bool {
    match phase {
        PhaseView::Idle => false,
        PhaseView::Resolving => reply is Resolved || reply is Failed,
        PhaseView::Entering { .. } => reply is DirectoryChanged || reply is Failed,
        PhaseView::Forking { .. } => reply is ForkedParent || reply is ForkedChild
            || reply is Failed,
        PhaseView::Waiting { .. } => reply is ChildExited || reply is Failed,
        PhaseView::ChildEntering { .. } => reply is DirectoryChanged || reply is Failed,
        PhaseView::ChildReplacing => reply is Failed,
        PhaseView::ChildTerminated => false,
    }
}

/// The request that ends the child process after the launch failure `e`.
pub open spec fn termination(e: LaunchErrorView) -> RequestView {
    RequestView::Terminate {
        status: CHILD_FAILURE_STATUS,
        error: ShellErrorView::ExternalCommand(e),
    }
}

/// What becomes of the session `s` when the driver hands it `reply`, and what
/// it asks for next. A reply that answers no open request is ignored.
pub open spec fn resumed(s: ShellView, reply: ReplyView) -> (ShellView, RequestView) {
    let idle = s.in_phase(PhaseView::Idle);
    if !expects(s.phase, reply) {
        (s, RequestView::Ignored)
    } else {
        match s.phase {
            PhaseView::Resolving => match reply {
                ReplyView::Resolved(path) => if is_absolute_path(path) {
                    (
                        s.in_phase(PhaseView::Entering { path }),
                        RequestView::ChangeDirectory { path },
                    )
                } else {
                    (
                        idle,
                        RequestView::Finished(
                            Err(ShellErrorView::PathResolution(unresolved_message())),
                        ),
                    )
                },
                ReplyView::Failed(m) => (
                    idle,
                    RequestView::Finished(Err(ShellErrorView::PathResolution(m))),
                ),
                _ => (s, RequestView::Ignored),
            },
            PhaseView::Entering { path } => match reply {
                ReplyView::Failed(m) => (
                    idle,
                    RequestView::Finished(Err(ShellErrorView::PathResolution(m))),
                ),
                _ => (s.moved_to(path), RequestView::Finished(Ok(()))),
            },
            PhaseView::Forking { plan } => match reply {
                ReplyView::ForkedParent { child } => (
                    s.in_phase(PhaseView::Waiting { child }),
                    RequestView::Wait { child },
                ),
                ReplyView::ForkedChild => (
                    s.in_phase(PhaseView::ChildEntering { plan }),
                    RequestView::ChangeDirectory { path: plan.workdir },
                ),
                _ => (
                    idle,
                    RequestView::Finished(
                        Err(ShellErrorView::ExternalCommand(LaunchErrorView::Fork)),
                    ),
                ),
            },
            PhaseView::Waiting { .. } => match reply {
                ReplyView::Failed(m) => (
                    idle,
                    RequestView::Finished(
                        Err(ShellErrorView::ExternalCommand(LaunchErrorView::Wait(m))),
                    ),
                ),
                _ => (idle, RequestView::Finished(Ok(()))),
            },
            PhaseView::ChildEntering { plan } => match reply {
                ReplyView::Failed(m) => (
                    s.in_phase(PhaseView::ChildTerminated),
                    termination(LaunchErrorView::WorkingDirectory(m)),
                ),
                _ => (
                    s.in_phase(PhaseView::ChildReplacing),
                    RequestView::ReplaceImage { program: plan.program, argv: plan.argv },
                ),
            },
            PhaseView::ChildReplacing => match reply {
                ReplyView::Failed(m) => (
                    s.in_phase(PhaseView::ChildTerminated),
                    termination(LaunchErrorView::ImageReplacement(m)),
                ),
                _ => (s, RequestView::Ignored),
            },
            _ => (s, RequestView::Ignored),
        }
    }
}

impl View for Shell {
    type V = ShellView;

    closed spec fn view(&self) -> ShellView {
        ShellView {
            prompt: self.prompt@,
            current_directory: self.current_directory@,
            home_directory: self.home_directory@,
            phase: self.phase@,
        }
    }
}

impl Shell {
    /// Every session is well formed, at all times.
    #[verifier::type_invariant]
    closed spec fn well_formed(&self) -> bool {
        self@.wf()
    }

    /// Starts a session in the home directory `home`, the value that the
    /// environment gives for it. There is no session without a home
    /// directory, nor with one that is not an absolute path.
    pub fn new(home: Option<String>) -> (r: Result<Shell, StartupError>)
        ensures
            match r {
                Ok(shell) => started(
                    match home {
                        Some(h) => Some(h@),
                        None => None,
                    },
                ) == Ok::<ShellView, StartupError>(shell@) && shell@.wf(),
                Err(e) => started(
                    match home {
                        Some(h) => Some(h@),
                        None => None,
                    },
                ) == Err::<ShellView, StartupError>(e),
            },
    {
        match home {
            None => Err(StartupError::MissingHome),
            Some(h) => {
                if is_absolute(h.as_str()) {
                    Ok(
                        Shell {
                            prompt: prompt_for(h.as_str()),
                            current_directory: h.clone(),
                            home_directory: h,
                            phase: Phase::Idle,
                        },
                    )
                } else {
                    Err(StartupError::RelativeHome)
                }
            },
        }
    }

    /// The prompt: the current directory followed by `" % "`.
    pub fn prompt(&self) -> (r: &str)
        ensures
            r@ == self@.prompt,
    {
        self.prompt.as_str()
    }

    /// The directory that the session is in.
    pub fn current_directory(&self) -> (r: &str)
        ensures
            r@ == self@.current_directory,
    {
        self.current_directory.as_str()
    }

    /// The home directory that the session started with.
    pub fn home_directory(&self) -> (r: &str)
        ensures
            r@ == self@.home_directory,
    {
        self.home_directory.as_str()
    }

    /// Tells whether no command is in hand.
    pub fn is_idle(&self) -> (r: bool)
        ensures
            r == self@.idle(),
    {
        matches!(self.phase, Phase::Idle)
    }

    /// Tells whether this process is the child made for an external command.
    pub fn is_in_child(&self) -> (r: bool)
        ensures
            r == self@.in_child(),
    {
        match self.phase {
            Phase::ChildEntering { .. } | Phase::ChildReplacing | Phase::ChildTerminated => true,
            _ => false,
        }
    }

    /// Takes the command in hand and says what is to be done for it first.
    pub fn execute(&mut self, command: &Command) -> (r: Request)
        ensures
            (final(self)@, r@) == executed(old(self)@, command@),
            old(self)@.wf(),
            final(self)@.wf(),
    {
        proof {
            use_type_invariant(&*self);
        }
        if !self.is_idle() {
            return Request::Ignored;
        }
        if command.is_blank() {
            return Request::Finished(Ok(()));
        }
        if same_text(command.name.as_str(), "cd") {
            let target = target_of_change(
                self.current_directory.as_str(),
                self.home_directory.as_str(),
                &command.args,
            );
            self.phase = Phase::Resolving;
            Request::Resolve { target }
        } else {
            match command.execute_external(self.current_directory.as_str()) {
                Ok(plan) => {
                    self.phase = Phase::Forking { plan };
                    Request::Fork
                },
                Err(e) => Request::Finished(Err(ShellError::ExternalCommand(e))),
            }
        }
    }

    /// Tells whether `reply` answers the request that is open.
    pub fn awaits(&self, reply: &Reply) -> (r: bool)
        ensures
            r == expects(self@.phase, reply@),
    {
        match self.phase {
            Phase::Idle => false,
            Phase::Resolving => matches!(reply, Reply::Resolved(_) | Reply::Failed(_)),
            Phase::Entering { .. } => matches!(reply, Reply::DirectoryChanged | Reply::Failed(_)),
            Phase::Forking { .. } => matches!(
                reply,
                Reply::ForkedParent { .. } | Reply::ForkedChild | Reply::Failed(_)
            ),
            Phase::Waiting { .. } => matches!(reply, Reply::ChildExited | Reply::Failed(_)),
            Phase::ChildEntering { .. } => matches!(
                reply,
                Reply::DirectoryChanged | Reply::Failed(_)
            ),
            Phase::ChildReplacing => matches!(reply, Reply::Failed(_)),
            Phase::ChildTerminated => false,
        }
    }

    /// Takes the outcome of what was asked for and says what is to be done
    /// next.
    pub fn resume(&mut self, reply: Reply) -> (r: Request)
        ensures
            (final(self)@, r@) == resumed(old(self)@, reply@),
            old(self)@.wf(),
            final(self)@.wf(),
    {
        proof {
            use_type_invariant(&*self);
        }
        if !self.awaits(&reply) {
            return Request::Ignored;
        }
        let mut phase = Phase::Idle;
        core::mem::swap(&mut self.phase, &mut phase);
        match phase {
            Phase::Resolving => match reply {
                Reply::Resolved(path) => {
                    if is_absolute(path.as_str()) {
                        let request = Request::ChangeDirectory { path: path.clone() };
                        self.phase = Phase::Entering { path };
                        request
                    } else {
                        Request::Finished(
                            Err(
                                ShellError::PathResolution(
                                    "Resolved directory is not an absolute path".to_owned(),
                                ),
                            ),
                        )
                    }
                },
                Reply::Failed(m) => Request::Finished(Err(ShellError::PathResolution(m))),
                _ => Request::Ignored,
            },
            Phase::Entering { path } => match reply {
                Reply::Failed(m) => Request::Finished(Err(ShellError::PathResolution(m))),
                _ => {
                    *self = Shell {
                        prompt: prompt_for(path.as_str()),
                        current_directory: path,
                        home_directory: self.home_directory.clone(),
                        phase: Phase::Idle,
                    };
                    Request::Finished(Ok(()))
                },
            },
            Phase::Forking { plan } => match reply {
                Reply::ForkedParent { child } => {
                    self.phase = Phase::Waiting { child };
                    Request::Wait { child }
                },
                Reply::ForkedChild => {
                    let request = Request::ChangeDirectory { path: plan.workdir.clone() };
                    self.phase = Phase::ChildEntering { plan };
                    request
                },
                _ => Request::Finished(Err(ShellError::ExternalCommand(LaunchError::Fork))),
            },
            Phase::Waiting { .. } => match reply {
                Reply::Failed(m) => Request::Finished(
                    Err(ShellError::ExternalCommand(LaunchError::Wait(m))),
                ),
                _ => Request::Finished(Ok(())),
            },
            Phase::ChildEntering { plan } => match reply {
                Reply::Failed(m) => {
                    self.phase = Phase::ChildTerminated;
                    Request::Terminate {
                        status: CHILD_FAILURE_STATUS,
                        error: ShellError::ExternalCommand(LaunchError::WorkingDirectory(m)),
                    }
                },
                _ => {
                    self.phase = Phase::ChildReplacing;
                    Request::ReplaceImage { program: plan.program, argv: plan.argv }
                },
            },
            Phase::ChildReplacing => match reply {
                Reply::Failed(m) => {
                    self.phase = Phase::ChildTerminated;
                    Request::Terminate {
                        status: CHILD_FAILURE_STATUS,
                        error: ShellError::ExternalCommand(LaunchError::ImageReplacement(m)),
                    }
                },
                _ => Request::Ignored,
            },
            _ => Request::Ignored,
        }
    }
}

} // verus!
