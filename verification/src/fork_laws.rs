//! What holds of every fork, whatever the system's answers are.

use vstd::multiset::Multiset;
use vstd::prelude::*;

use crate::error::IonError;
use crate::process::{next_fork, ForkAction, ForkActionView, ForkEvent, IonResult, Pipe};
use crate::shell::ShellView;

verus! {

/// One step of a fork.
pub struct ForkStep {
    pub shell: ShellView,
    pub event: ForkEvent,
    pub action: ForkActionView,
}

/// Whether an event tells the outcome of an action.
pub open spec fn answers(action: ForkActionView, event: ForkEvent) -> bool {
    match action {
        ForkActionView::OpenStdout => event is StdoutOpened,
        ForkActionView::OpenStderr { stdout: asked } => event matches ForkEvent::StderrOpened {
            stdout,
            ..
        } && stdout == asked,
        ForkActionView::Fork { stdout: asked, stderr: asked_too } =>
            event matches ForkEvent::Forked { stdout, stderr, .. } && stdout == asked && stderr
                == asked_too,
        ForkActionView::RunChild { .. } => event is ChildDone,
        ForkActionView::ExitChild(_) => false,
        ForkActionView::Return { .. } => false,
    }
}

/// Whether the steps form a fork, from its start on.
pub open spec fn is_fork(steps: Seq<ForkStep>) -> bool {
    &&& steps.len() > 0
    &&& steps[0].event is Requested
    &&& forall|i: int|
        0 <= i < steps.len() ==> (#[trigger] steps[i]).action == next_fork(
            steps[i].shell,
            steps[i].event,
        )
    &&& forall|i: int, j: int|
        0 <= i && j == i + 1 && j < steps.len() ==> answers(
            (#[trigger] steps[i]).action,
            (#[trigger] steps[j]).event,
        )
}

/// The descriptors of the two ends of a pipe.
pub open spec fn ends(pipe: Pipe) -> Multiset<i32> {
    Multiset::<i32>::empty().insert(pipe.read).insert(pipe.write)
}

/// The descriptors that the system has opened before it tells an event.
pub open spec fn opened_by(event: ForkEvent) -> Multiset<i32> {
    match event {
        ForkEvent::StdoutOpened(Ok(pipe)) => ends(pipe),
        ForkEvent::StderrOpened { opened: Ok(pipe), .. } => ends(pipe),
        _ => Multiset::empty(),
    }
}

/// The descriptors that have been opened in the course of a fork.
pub open spec fn opened(steps: Seq<ForkStep>) -> Multiset<i32>
    decreases steps.len(),
{
    if steps.len() == 0 {
        Multiset::empty()
    } else {
        opened(steps.drop_last()).add(opened_by(steps.last().event))
    }
}

/// The descriptors that a forked shell leaves to the caller.
pub open spec fn handed_out(result: Result<IonResult, IonError>) -> Multiset<i32> {
    match result {
        Ok(forked) => Multiset::<i32>::empty().insert(forked.stdout).insert(forked.stderr),
        Err(_) => Multiset::empty(),
    }
}

/// The descriptors of the pipes that an event speaks of.
spec fn known(event: ForkEvent) -> Multiset<i32> {
    match event {
        ForkEvent::StdoutOpened(Ok(stdout)) => ends(stdout),
        ForkEvent::StderrOpened { stdout, opened: Ok(stderr) } => ends(stdout).add(ends(stderr)),
        ForkEvent::StderrOpened { stdout, opened: Err(_) } => ends(stdout),
        ForkEvent::Forked { stdout, stderr, .. } => ends(stdout).add(ends(stderr)),
        _ => Multiset::empty(),
    }
}

proof fn lemma_known_is_opened(steps: Seq<ForkStep>)
    requires
        is_fork(steps),
        !(steps.last().event is ChildDone),
    ensures
        opened(steps) == known(steps.last().event),
    decreases steps.len(),
{
    let last = steps.len() - 1;
    if last == 0 {
        assert(steps.drop_last().len() == 0);
        assert(opened(steps.drop_last()) == Multiset::<i32>::empty());
        assert(opened(steps) =~= Multiset::empty());
    } else {
        let rest = steps.drop_last();
        assert(answers(steps[last - 1].action, steps[last].event));
        assert(is_fork(rest)) by {
            assert forall|i: int| 0 <= i < rest.len() implies (#[trigger] rest[i]).action
                == next_fork(rest[i].shell, rest[i].event) by {
                assert(rest[i] == steps[i]);
            }
            assert forall|i: int, j: int|
                0 <= i && j == i + 1 && j < rest.len() implies answers(
                (#[trigger] rest[i]).action,
                (#[trigger] rest[j]).event,
            ) by {
                assert(rest[i] == steps[i] && rest[j] == steps[j]);
            }
        }
        assert(rest.last() == steps[last - 1]);
        lemma_known_is_opened(rest);
        assert(opened(steps) =~= known(steps.last().event));
    }
}

proof fn lemma_two_listed(a: i32, b: i32)
    ensures
        seq![a, b].to_multiset() == Multiset::<i32>::empty().insert(a).insert(b),
{
    let none = Seq::<i32>::empty();
    none.to_multiset_ensures();
    none.push(a).to_multiset_ensures();
    assert(none.to_multiset() =~= Multiset::empty());
    assert(seq![a, b] =~= none.push(a).push(b));
}

proof fn lemma_four_listed(a: i32, b: i32, c: i32, d: i32)
    ensures
        seq![a, b, c, d].to_multiset() == Multiset::<i32>::empty().insert(a).insert(b).insert(
            c,
        ).insert(d),
{
    lemma_two_listed(a, b);
    seq![a, b].to_multiset_ensures();
    seq![a, b].push(c).to_multiset_ensures();
    assert(seq![a, b, c, d] =~= seq![a, b].push(c).push(d));
}

/// No descriptor is lost in a fork: of those that have been opened the parent closes or hands out
/// each one, and the child closes all of them.
pub proof fn lemma_fork_loses_no_descriptor(steps: Seq<ForkStep>)
    requires
        is_fork(steps),
    ensures
        steps.last().action matches ForkActionView::Return { close, result }
            ==> close.to_multiset().add(handed_out(result)) == opened(steps),
        steps.last().action matches ForkActionView::RunChild { close, .. } ==> close.to_multiset()
            == opened(steps),
{
    let step = steps.last();
    assert(step == steps[steps.len() - 1]);
    if !(step.event is ChildDone) {
        lemma_known_is_opened(steps);
        Seq::<i32>::empty().to_multiset_ensures();
        assert(Seq::<i32>::empty().to_multiset() =~= Multiset::empty());
        match step.event {
            ForkEvent::StderrOpened { stdout, .. } => {
                lemma_two_listed(stdout.write, stdout.read);
            },
            ForkEvent::Forked { stdout, stderr, .. } => {
                lemma_four_listed(stdout.write, stdout.read, stderr.write, stderr.read);
                lemma_four_listed(stderr.write, stderr.read, stdout.write, stdout.read);
                lemma_two_listed(stdout.write, stderr.write);
            },
            _ => {},
        }
        if let ForkActionView::Return { close, result } = step.action {
            assert(close.to_multiset().add(handed_out(result)) =~= opened(steps));
        }
        if let ForkActionView::RunChild { close, .. } = step.action {
            assert(close.to_multiset() =~= opened(steps));
        }
    }
}

/// A fork ends after at most five steps.
pub proof fn lemma_fork_is_bounded(steps: Seq<ForkStep>)
    requires
        is_fork(steps),
    ensures
        steps.len() <= 5,
{
    if steps.len() > 5 {
        assert(answers(steps[0].action, steps[1].event));
        assert(answers(steps[1].action, steps[2].event));
        assert(answers(steps[2].action, steps[3].event));
        assert(answers(steps[3].action, steps[4].event));
        assert(answers(steps[4].action, steps[5].event));
    }
}

/// The process is forked at most once, and the child does its work at most once.
pub proof fn lemma_fork_works_once(steps: Seq<ForkStep>, i: int)
    requires
        is_fork(steps),
        0 <= i < steps.len(),
    ensures
        steps[i].action is Fork ==> i == 2,
        steps[i].action is RunChild ==> i == 3,
{
    lemma_fork_is_bounded(steps);
    if steps.len() > 1 {
        assert(answers(steps[0].action, steps[1].event));
    }
    if steps.len() > 2 {
        assert(answers(steps[1].action, steps[2].event));
    }
    if steps.len() > 3 {
        assert(answers(steps[2].action, steps[3].event));
    }
    if steps.len() > 4 {
        assert(answers(steps[3].action, steps[4].event));
    }
}

/// A fork succeeds only in the parent, and then tells the child's number and the ends of the pipes
/// from which its output is read.
pub proof fn lemma_fork_succeeds_in_parent(shell: ShellView, event: ForkEvent)
    ensures
        next_fork(shell, event) matches ForkActionView::Return { result: Ok(forked), .. } ==> {
            &&& event matches ForkEvent::Forked { stdout, stderr, forked: Ok(pid) }
            &&& pid != 0
            &&& forked == (IonResult { pid, stdout: stdout.read, stderr: stderr.read })
        },
{
}

/// Each output of the child goes into the pipe from which the parent reads that very output, whatever
/// the state of the shell on either side: the standard output of the child into the write end of
/// the pipe whose read end the parent hands out as `stdout`, and its standard error into that of
/// the pipe whose read end the parent hands out as `stderr`.
pub proof fn lemma_child_writes_what_parent_reads(
    child: ShellView,
    parent: ShellView,
    stdout: Pipe,
    stderr: Pipe,
    pid: u32,
)
    requires
        pid != 0,
    ensures
        next_fork(child, ForkEvent::Forked { stdout, stderr, forked: Ok(0) }) matches
            ForkActionView::RunChild { stdout_to, stderr_to, .. } && stdout_to == stdout.write
            && stderr_to == stderr.write,
        next_fork(parent, ForkEvent::Forked { stdout, stderr, forked: Ok(pid) }) matches
            ForkActionView::Return { result: Ok(forked), .. } && forked.pid == pid
            && forked.stdout == stdout.read && forked.stderr == stderr.read,
{
}

/// In the whole course of a fork a pipe keeps its role: the one that was opened first carries the
/// standard output and the one that was opened second the standard error, in the child as well as
/// in what the parent is told.
pub proof fn lemma_pipes_keep_their_roles(steps: Seq<ForkStep>, i: int)
    requires
        is_fork(steps),
        0 <= i < steps.len(),
    ensures
        steps[i].action matches ForkActionView::RunChild { stdout_to, stderr_to, .. } ==> {
            &&& i == 3
            &&& steps[1].event matches ForkEvent::StdoutOpened(Ok(stdout))
            &&& steps[2].event matches ForkEvent::StderrOpened { opened: Ok(stderr), .. }
            &&& stdout_to == stdout.write
            &&& stderr_to == stderr.write
        },
        steps[i].action matches ForkActionView::Return { result: Ok(forked), .. } ==> {
            &&& i == 3
            &&& steps[1].event matches ForkEvent::StdoutOpened(Ok(stdout))
            &&& steps[2].event matches ForkEvent::StderrOpened { opened: Ok(stderr), .. }
            &&& forked.stdout == stdout.read
            &&& forked.stderr == stderr.read
        },
{
    lemma_fork_is_bounded(steps);
    if steps.len() > 1 {
        assert(answers(steps[0].action, steps[1].event));
    }
    if steps.len() > 2 {
        assert(answers(steps[1].action, steps[2].event));
    }
    if steps.len() > 3 {
        assert(answers(steps[2].action, steps[3].event));
    }
    if steps.len() > 4 {
        assert(answers(steps[3].action, steps[4].event));
    }
}

/// A fork opens the pipe for the standard output, then the one for the standard error, and then
/// forks the process with both of them. It does so in every shell.
pub proof fn lemma_fork_opens_both_pipes(shell: ShellView, stdout: Pipe, stderr: Pipe)
    ensures
        next_fork(shell, ForkEvent::Requested) is OpenStdout,
        next_fork(shell, ForkEvent::StdoutOpened(Ok(stdout))) == (ForkActionView::OpenStderr {
            stdout,
        }),
        next_fork(shell, ForkEvent::StderrOpened { stdout, opened: Ok(stderr) }) == (
        ForkActionView::Fork { stdout, stderr }),
{
}

/// What cannot be opened or forked ends the fork with the reason that the system gave, after every
/// descriptor opened so far has been closed, the last one first.
pub proof fn lemma_failed_fork_gives_reason(
    shell: ShellView,
    stdout: Pipe,
    stderr: Pipe,
    why: std::io::Error,
)
    ensures
        next_fork(shell, ForkEvent::StdoutOpened(Err(why))) matches ForkActionView::Return {
            close,
            result: Err(error),
        } && error == IonError::Fork(why) && close.len() == 0,
        next_fork(shell, ForkEvent::StderrOpened { stdout, opened: Err(why) }) matches
            ForkActionView::Return { close, result: Err(error) } && error == IonError::Fork(why)
            && close == seq![stdout.write, stdout.read],
        next_fork(shell, ForkEvent::Forked { stdout, stderr, forked: Err(why) }) matches
            ForkActionView::Return { close, result: Err(error) } && error == IonError::Fork(why)
            && close == seq![stderr.write, stderr.read, stdout.write, stdout.read],
{
}

/// The child closes both ends of both pipes, which it no longer needs by their own numbers, and the
/// parent the two ends to which the child writes. In the end the child exits with the status that
/// its own shell holds.
pub proof fn lemma_fork_closes_unused_ends(
    shell: ShellView,
    stdout: Pipe,
    stderr: Pipe,
    pid: u32,
)
    ensures
        next_fork(shell, ForkEvent::Forked { stdout, stderr, forked: Ok(0) }) matches
            ForkActionView::RunChild { close, .. } && close == seq![
            stdout.write,
            stdout.read,
            stderr.write,
            stderr.read,
        ],
        pid != 0 ==> (next_fork(shell, ForkEvent::Forked { stdout, stderr, forked: Ok(pid) }) matches
            ForkActionView::Return { close, .. } && close == seq![stdout.write, stderr.write]),
        next_fork(shell, ForkEvent::ChildDone) == ForkActionView::ExitChild(shell.previous_status),
{
}

/// What is seen of an action of a fork is its kind and everything that it asks for.
pub proof fn lemma_fork_action_is_seen(action: ForkAction)
    ensures
        match action {
            ForkAction::OpenStdout => action@ is OpenStdout,
            ForkAction::OpenStderr { stdout } => action@ == (ForkActionView::OpenStderr { stdout }),
            ForkAction::Fork { stdout, stderr } => action@ == (ForkActionView::Fork {
                stdout,
                stderr,
            }),
            ForkAction::RunChild { stdout_to, stderr_to, close } => action@ == (
            ForkActionView::RunChild { stdout_to, stderr_to, close: close@ }),
            ForkAction::ExitChild(status) => action@ == ForkActionView::ExitChild(status),
            ForkAction::Return { close, result } => action@ == (ForkActionView::Return {
                close: close@,
                result,
            }),
        },
{
}

} // verus!
