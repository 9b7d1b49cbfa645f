//! What holds of every session, whatever commands and replies it is given.

use crate::command::{parse_line, CommandView};
use crate::error::ShellErrorView;
use crate::path::{appended, is_absolute_path, prompt_of};
use crate::protocol::{unresolved_message, ReplyView, RequestView};
use crate::shell::{change_directory_name, executed, resumed, PhaseView, ShellView};
use crate::text::{blank, lemma_blank_has_no_words};
use vstd::prelude::*;

verus! {

/// Handing a command to a well-formed session leaves it well formed.
pub proof fn lemma_executed_is_well_formed(s: ShellView, c: CommandView)
    requires
        s.wf(),
    ensures
        executed(s, c).0.wf(),
{
}

/// Handing a reply to a well-formed session leaves it well formed.
pub proof fn lemma_resumed_is_well_formed(s: ShellView, reply: ReplyView)
    requires
        s.wf(),
    ensures
        resumed(s, reply).0.wf(),
{
}

/// A blank line is a command that does nothing: the session stays as it
/// was, and an idle session reports success at once, so that no process is
/// made and no failure is reported.
pub proof fn lemma_blank_line_does_nothing(s: ShellView, line: Seq<char>)
    requires
        blank(line),
    ensures
        parse_line(line).name.len() == 0,
        executed(s, parse_line(line)).0 == s,
        s.idle() ==> executed(s, parse_line(line)).1 == RequestView::Finished(Ok(())),
        !s.idle() ==> executed(s, parse_line(line)).1 == RequestView::Ignored,
{
    lemma_blank_has_no_words(line);
}

/// `cd` without arguments leads home, wherever the session is: the target
/// to resolve is the home directory, and once it has resolved to `canonical`
/// and that directory was entered, the session is idle in `canonical`, with
/// the prompt that shows it and the home directory it had.
pub proof fn lemma_cd_without_arguments_leads_home(
    s: ShellView,
    c: CommandView,
    canonical: Seq<char>,
)
    requires
        s.idle(),
        c.name == change_directory_name(),
        c.args.len() == 0,
        is_absolute_path(canonical),
    ensures
        ({
            let (s1, r1) = executed(s, c);
            let (s2, r2) = resumed(s1, ReplyView::Resolved(canonical));
            let (s3, r3) = resumed(s2, ReplyView::DirectoryChanged);
            &&& r1 == RequestView::Resolve { target: s.home_directory }
            &&& r2 == RequestView::ChangeDirectory { path: canonical }
            &&& r3 == RequestView::Finished(Ok(()))
            &&& s3 == s.moved_to(canonical)
            &&& s3.current_directory == canonical
            &&& s3.prompt == prompt_of(canonical)
            &&& s3.home_directory == s.home_directory
            &&& s3.idle()
        }),
{
    assert(change_directory_name().len() > 0) by {
        reveal_strlit("cd");
    }
}

/// `cd` with a relative path leads to that path taken from the current
/// directory: the target to resolve is the current directory with the path
/// appended, whatever further arguments follow. Once the target has resolved
/// to `canonical` and that directory was entered, the session is idle in
/// `canonical`.
pub proof fn lemma_cd_relative_starts_from_current(
    s: ShellView,
    c: CommandView,
    canonical: Seq<char>,
)
    requires
        s.idle(),
        c.name == change_directory_name(),
        c.args.len() >= 1,
        !is_absolute_path(c.args[0]),
        is_absolute_path(canonical),
    ensures
        ({
            let (s1, r1) = executed(s, c);
            let (s2, r2) = resumed(s1, ReplyView::Resolved(canonical));
            let (s3, r3) = resumed(s2, ReplyView::DirectoryChanged);
            &&& r1 == RequestView::Resolve { target: appended(s.current_directory, c.args[0]) }
            &&& r2 == RequestView::ChangeDirectory { path: canonical }
            &&& r3 == RequestView::Finished(Ok(()))
            &&& s3 == s.moved_to(canonical)
        }),
{
    assert(change_directory_name().len() > 0) by {
        reveal_strlit("cd");
    }
}

/// `cd` with an absolute path leads to that path as it stands.
pub proof fn lemma_cd_absolute_is_verbatim(s: ShellView, c: CommandView, canonical: Seq<char>)
    requires
        s.idle(),
        c.name == change_directory_name(),
        c.args.len() >= 1,
        is_absolute_path(c.args[0]),
        is_absolute_path(canonical),
    ensures
        ({
            let (s1, r1) = executed(s, c);
            let (s2, r2) = resumed(s1, ReplyView::Resolved(canonical));
            let (s3, r3) = resumed(s2, ReplyView::DirectoryChanged);
            &&& r1 == RequestView::Resolve { target: c.args[0] }
            &&& r2 == RequestView::ChangeDirectory { path: canonical }
            &&& r3 == RequestView::Finished(Ok(()))
            &&& s3 == s.moved_to(canonical)
        }),
{
    assert(change_directory_name().len() > 0) by {
        reveal_strlit("cd");
    }
}

/// A `cd` whose target does not resolve changes nothing: the failure is
/// reported with the message that came with it, and the session is what it
/// was before the command, directory and prompt included.
pub proof fn lemma_unresolved_cd_changes_nothing(s: ShellView, c: CommandView, why: Seq<char>)
    requires
        s.idle(),
        c.name == change_directory_name(),
    ensures
        ({
            let (s1, r1) = executed(s, c);
            let (s2, r2) = resumed(s1, ReplyView::Failed(why));
            &&& r1 is Resolve
            &&& r2 == RequestView::Finished(Err(ShellErrorView::PathResolution(why)))
            &&& s2 == s
        }),
{
    assert(change_directory_name().len() > 0) by {
        reveal_strlit("cd");
    }
}

/// A `cd` whose target resolves but cannot be entered changes nothing
/// either: the failure is reported with the message that came with it, and
/// the session is what it was before the command.
pub proof fn lemma_unentered_cd_changes_nothing(
    s: ShellView,
    c: CommandView,
    canonical: Seq<char>,
    why: Seq<char>,
)
    requires
        s.idle(),
        c.name == change_directory_name(),
        is_absolute_path(canonical),
    ensures
        ({
            let (s1, r1) = executed(s, c);
            let (s2, r2) = resumed(s1, ReplyView::Resolved(canonical));
            let (s3, r3) = resumed(s2, ReplyView::Failed(why));
            &&& r2 == RequestView::ChangeDirectory { path: canonical }
            &&& r3 == RequestView::Finished(Err(ShellErrorView::PathResolution(why)))
            &&& s3 == s
        }),
{
    assert(change_directory_name().len() > 0) by {
        reveal_strlit("cd");
    }
}

/// A `cd` whose target resolves to a path that is not absolute fails
/// without a request to enter it, and changes nothing.
pub proof fn lemma_relative_resolution_changes_nothing(
    s: ShellView,
    c: CommandView,
    resolved: Seq<char>,
)
    requires
        s.idle(),
        c.name == change_directory_name(),
        !is_absolute_path(resolved),
    ensures
        ({
            let (s1, r1) = executed(s, c);
            let (s2, r2) = resumed(s1, ReplyView::Resolved(resolved));
            &&& r2 == RequestView::Finished(
                Err(ShellErrorView::PathResolution(unresolved_message())),
            )
            &&& s2 == s
        }),
{
    assert(change_directory_name().len() > 0) by {
        reveal_strlit("cd");
    }
}

/// A session that has a command in hand takes up no other: the command is
/// ignored and the session stays as it is.
pub proof fn lemma_busy_session_takes_no_command(s: ShellView, c: CommandView)
    requires
        !s.idle(),
    ensures
        executed(s, c) == (s, RequestView::Ignored),
{
}

/// The session moves only when a directory was entered for `cd`. No
/// command changes the directory or the prompt when it is handed over, no
/// reply changes the home directory, and a reply changes the directory and
/// the prompt only where it says that the directory resolved for `cd` was
/// entered.
pub proof fn lemma_only_an_entered_directory_moves(
    s: ShellView,
    c: CommandView,
    reply: ReplyView,
)
    ensures
        executed(s, c).0.current_directory == s.current_directory,
        executed(s, c).0.prompt == s.prompt,
        executed(s, c).0.home_directory == s.home_directory,
        resumed(s, reply).0.home_directory == s.home_directory,
        !(s.phase is Entering && reply is DirectoryChanged) ==> resumed(
            s,
            reply,
        ).0.current_directory == s.current_directory && resumed(s, reply).0.prompt == s.prompt,
{
}

/// A command that ends in failure leaves the session in the directory it
/// was in, with the same prompt and home directory, and idle again.
pub proof fn lemma_failure_leaves_the_session_in_place(s: ShellView, reply: ReplyView)
    requires
        resumed(s, reply).1 is Finished,
        resumed(s, reply).1 != RequestView::Finished(Ok(())),
    ensures
        resumed(s, reply).0 == s.in_phase(PhaseView::Idle),
{
}

/// An external command in the parent process: once it is handed over, a
/// child process is asked for; the parent then waits for that very child;
/// and when the wait has returned the command is done and the session is
/// what it was before.
pub proof fn lemma_external_command_leaves_the_session_unchanged(
    s: ShellView,
    c: CommandView,
    child: i32,
)
    requires
        s.idle(),
        executed(s, c).1 == RequestView::Fork,
    ensures
        ({
            let (s1, r1) = executed(s, c);
            let (s2, r2) = resumed(s1, ReplyView::ForkedParent { child });
            let (s3, r3) = resumed(s2, ReplyView::ChildExited);
            &&& r2 == RequestView::Wait { child }
            &&& r3 == RequestView::Finished(Ok(()))
            &&& s3 == s
        }),
{
}

/// The child process never comes back to the shell's own work: whatever it
/// is handed, it stays the child, takes no command, and is asked only to
/// enter the working directory, to start the program, or to end.
pub proof fn lemma_child_never_returns(s: ShellView, c: CommandView, reply: ReplyView)
    requires
        s.in_child(),
    ensures
        executed(s, c) == (s, RequestView::Ignored),
        resumed(s, reply).0.in_child(),
        resumed(s, reply).1 is ReplaceImage || resumed(s, reply).1 is Terminate || resumed(
            s,
            reply,
        ).1 is Ignored,
{
}

/// One thing handed to the session: a command, or a reply from the driver.
pub enum Input {
    Command(CommandView),
    Reply(ReplyView),
}

/// The session and its request after `input` was handed to `s`.
pub open spec fn stepped(s: ShellView, input: Input) -> (ShellView, RequestView) {
    match input {
        Input::Command(c) => executed(s, c),
        Input::Reply(r) => resumed(s, r),
    }
}

/// The session after all of `inputs` were handed to `s`, one after another.
pub open spec fn state_after(s: ShellView, inputs: Seq<Input>) -> ShellView
    decreases inputs.len(),
{
    if inputs.len() == 0 {
        s
    } else {
        stepped(state_after(s, inputs.drop_last()), inputs.last()).0
    }
}

/// Whatever is handed to a well-formed session, it stays well formed: the
/// prompt always shows the current directory, and the current directory is
/// always an absolute path.
pub proof fn lemma_every_state_is_well_formed(s: ShellView, inputs: Seq<Input>)
    requires
        s.wf(),
    ensures
        state_after(s, inputs).wf(),
        state_after(s, inputs).prompt == prompt_of(state_after(s, inputs).current_directory),
        is_absolute_path(state_after(s, inputs).current_directory),
    decreases inputs.len(),
{
    if inputs.len() > 0 {
        lemma_every_state_is_well_formed(s, inputs.drop_last());
    }
}

/// The home directory is set when the session starts and never changes.
pub proof fn lemma_home_never_changes(s: ShellView, inputs: Seq<Input>)
    ensures
        state_after(s, inputs).home_directory == s.home_directory,
    decreases inputs.len(),
{
    if inputs.len() > 0 {
        lemma_home_never_changes(s, inputs.drop_last());
    }
}

/// The session just before the input at place `k` is handed over.
pub open spec fn state_before(s: ShellView, inputs: Seq<Input>, k: int) -> ShellView {
    state_after(s, inputs.take(k))
}

/// What the session asks for when the input at place `k` is handed over.
pub open spec fn request_at(s: ShellView, inputs: Seq<Input>, k: int) -> RequestView {
    stepped(state_before(s, inputs, k), inputs[k]).1
}

/// Whether an external command is under way: a child process is being made,
/// is waited for, or is this process.
pub open spec fn launching(s: ShellView) -> bool {
    s.phase is Forking || s.phase is Waiting || s.in_child()
}

/// Whether the input at place `k` tells the waiting parent that its wait has
/// returned, or tells the session that no child process could be made.
pub open spec fn child_is_gone(s: ShellView, inputs: Seq<Input>, k: int) -> bool {
    let before = state_before(s, inputs, k);
    match inputs[k] {
        Input::Reply(r) => (before.phase is Waiting && (r is ChildExited || r is Failed)) || (
        before.phase is Forking && r is Failed),
        Input::Command(_) => false,
    }
}

/// The session before the input at place `k + 1` is the one that the input
/// at place `k` left.
proof fn lemma_state_unfolds(s: ShellView, inputs: Seq<Input>, k: int)
    requires
        0 <= k < inputs.len(),
    ensures
        state_before(s, inputs, k + 1) == stepped(state_before(s, inputs, k), inputs[k]).0,
{
    assert(inputs.take(k + 1).drop_last() =~= inputs.take(k));
}

/// An external command that is under way at place `a` and no longer at a
/// later place `b` has ended in between by a reply that the wait returned
/// or that no child could be made.
proof fn lemma_launch_ends_by_wait(s: ShellView, inputs: Seq<Input>, a: int, b: int)
    requires
        0 <= a <= b <= inputs.len(),
        launching(state_before(s, inputs, a)),
        !launching(state_before(s, inputs, b)),
    ensures
        exists|k: int| a <= k < b && child_is_gone(s, inputs, k),
    decreases b - a,
{
    assert(a < b);
    lemma_state_unfolds(s, inputs, b - 1);
    if launching(state_before(s, inputs, b - 1)) {
        assert(child_is_gone(s, inputs, b - 1));
    } else {
        lemma_launch_ends_by_wait(s, inputs, a, b - 1);
        let k = choose|k: int| a <= k < b - 1 && child_is_gone(s, inputs, k);
        assert(a <= k < b && child_is_gone(s, inputs, k));
    }
}

/// External commands never overlap. Whatever is handed to a session, and in
/// whatever order: where it asks for a child process twice, then between the
/// two requests it was told that the wait for the first child had returned,
/// or that the first child could not be made.
pub proof fn lemma_launches_never_overlap(s: ShellView, inputs: Seq<Input>, i: int, j: int)
    requires
        0 <= i < j < inputs.len(),
        request_at(s, inputs, i) == RequestView::Fork,
        request_at(s, inputs, j) == RequestView::Fork,
    ensures
        exists|k: int| i < k < j && child_is_gone(s, inputs, k),
{
    lemma_state_unfolds(s, inputs, i);
    assert(launching(state_before(s, inputs, i + 1)));
    assert(!launching(state_before(s, inputs, j)));
    lemma_launch_ends_by_wait(s, inputs, i + 1, j);
    let k = choose|k: int| i + 1 <= k < j && child_is_gone(s, inputs, k);
    assert(i < k < j && child_is_gone(s, inputs, k));
}

/// While a child process is waited for, the session asks for no other: from
/// the request to wait until the reply that the wait returned, no request
/// is one for a child process.
pub proof fn lemma_no_fork_while_waiting(s: ShellView, input: Input)
    requires
        s.phase is Waiting,
    ensures
        stepped(s, input).1 != RequestView::Fork,
        stepped(s, input).0.phase is Waiting || stepped(s, input).0.idle(),
        stepped(s, input).0.idle() ==> (match input {
            Input::Reply(r) => r is ChildExited || r is Failed,
            Input::Command(_) => false,
        }),
{
}

} // verus!
