//! The shell among processes: forks, captured output, signals, the working directory and the exit.

use vstd::prelude::*;
use vstd::string::*;

use crate::error::{error_text, IonError};
use crate::shell::{Shell, ShellView};
use crate::variables::optional_text;

verus! {

/// A pipe, by the numbers of the descriptors of its two ends.
#[derive(Clone, Copy, Debug, PartialEq, Eq, Structural)]
pub struct Pipe {
    pub read: i32,
    pub write: i32,
}

/// A forked shell: its process, and the ends of the pipes from which its output is read.
#[derive(Clone, Copy, Debug, PartialEq, Eq, Structural)]
pub struct IonResult {
    pub pid: u32,
    pub stdout: i32,
    pub stderr: i32,
}

/// What has happened in a fork.
pub enum ForkEvent {
    /// The shell is to be forked.
    Requested,
    /// The pipe for the standard output has been opened, or could not be.
    StdoutOpened(Result<Pipe, std::io::Error>),
    /// The pipe for the standard error has been opened, or could not be.
    StderrOpened { stdout: Pipe, opened: Result<Pipe, std::io::Error> },
    /// The process has been forked, or could not be. The child is told zero, and the parent the
    /// number of the child.
    Forked { stdout: Pipe, stderr: Pipe, forked: Result<u32, std::io::Error> },
    /// In the child, the shell has done what it was forked for.
    ChildDone,
}

/// What is to be done next in a fork.
pub enum ForkAction {
    /// Open the pipe for the standard output.
    OpenStdout,
    /// Open the pipe for the standard error.
    OpenStderr { stdout: Pipe },
    /// Fork the process.
    Fork { stdout: Pipe, stderr: Pipe },
    /// In the child: let the standard output and the standard error write to these descriptors,
    /// close the descriptors listed, and do with the shell what it was forked for.
    RunChild { stdout_to: i32, stderr_to: i32, close: Vec<i32> },
    /// In the child: exit with this status.
    ExitChild(i32),
    /// In the parent: close the descriptors listed, and return.
    Return { close: Vec<i32>, result: Result<IonResult, IonError> },
}

/// What a [`ForkAction`] asks for.
#[verifier::ext_equal]
pub enum ForkActionView {
    OpenStdout,
    OpenStderr { stdout: Pipe },
    Fork { stdout: Pipe, stderr: Pipe },
    RunChild { stdout_to: i32, stderr_to: i32, close: Seq<i32> },
    ExitChild(i32),
    Return { close: Seq<i32>, result: Result<IonResult, IonError> },
}

impl View for ForkAction {
    type V = ForkActionView;

    open spec fn view(&self) -> ForkActionView {
        match *self {
            ForkAction::OpenStdout => ForkActionView::OpenStdout,
            ForkAction::OpenStderr { stdout } => ForkActionView::OpenStderr { stdout },
            ForkAction::Fork { stdout, stderr } => ForkActionView::Fork { stdout, stderr },
            ForkAction::RunChild { stdout_to, stderr_to, close } => ForkActionView::RunChild {
                stdout_to,
                stderr_to,
                close: close@,
            },
            ForkAction::ExitChild(status) => ForkActionView::ExitChild(status),
            ForkAction::Return { close, result } => ForkActionView::Return { close: close@, result },
        }
    }
}

/// What follows an event of a fork.
pub open spec fn next_fork(shell: ShellView, event: ForkEvent) -> ForkActionView {
    match event {
        ForkEvent::Requested => ForkActionView::OpenStdout,
        ForkEvent::StdoutOpened(Ok(stdout)) => ForkActionView::OpenStderr { stdout },
        ForkEvent::StdoutOpened(Err(why)) => ForkActionView::Return {
            close: Seq::empty(),
            result: Err(IonError::Fork(why)),
        },
        ForkEvent::StderrOpened { stdout, opened: Ok(stderr) } => ForkActionView::Fork {
            stdout,
            stderr,
        },
        ForkEvent::StderrOpened { stdout, opened: Err(why) } => ForkActionView::Return {
            close: seq![stdout.write, stdout.read],
            result: Err(IonError::Fork(why)),
        },
        ForkEvent::Forked { stdout, stderr, forked: Ok(pid) } => if pid == 0 {
            ForkActionView::RunChild {
                stdout_to: stdout.write,
                stderr_to: stderr.write,
                close: seq![stdout.write, stdout.read, stderr.write, stderr.read],
            }
        } else {
            ForkActionView::Return {
                close: seq![stdout.write, stderr.write],
                result: Ok(IonResult { pid, stdout: stdout.read, stderr: stderr.read }),
            }
        },
        ForkEvent::Forked { stdout, stderr, forked: Err(why) } => ForkActionView::Return {
            close: seq![stderr.write, stderr.read, stdout.write, stdout.read],
            result: Err(IonError::Fork(why)),
        },
        ForkEvent::ChildDone => ForkActionView::ExitChild(shell.previous_status),
    }
}

/// What has happened to a command whose output is captured.
pub enum CaptureEvent {
    /// The output of the command is wanted.
    Requested { command: String },
    /// The shell has been forked to execute the command, or could not be; then `why` is the text of
    /// the error that the fork's error wraps.
    Forked { outcome: Result<IonResult, IonError>, why: String },
    /// The standard output of the child has been read to its end, or could not be for this reason.
    Read(Result<String, String>),
}

/// What is to be done next with a command whose output is captured.
pub enum CaptureAction {
    /// Fork the shell, and execute the command in the child.
    Fork { command: String },
    /// Read this descriptor to its end.
    Read { stdout: i32 },
    /// Print the diagnostic, if there is one, take the terminal back from the child, and return the
    /// output.
    Return { output: Option<String>, diagnostic: Option<String> },
}

/// What a [`CaptureEvent`] tells.
pub enum CaptureEventView {
    Requested { command: Seq<char> },
    Forked { outcome: Result<IonResult, IonError>, why: Seq<char> },
    Read(Result<Seq<char>, Seq<char>>),
}

/// What a [`CaptureAction`] asks for.
#[verifier::ext_equal]
pub enum CaptureActionView {
    Fork { command: Seq<char> },
    Read { stdout: i32 },
    Return { output: Option<Seq<char>>, diagnostic: Option<Seq<char>> },
}

impl View for CaptureEvent {
    type V = CaptureEventView;

    open spec fn view(&self) -> CaptureEventView {
        match *self {
            CaptureEvent::Requested { command } => CaptureEventView::Requested {
                command: command@,
            },
            CaptureEvent::Forked { outcome, why } => CaptureEventView::Forked {
                outcome,
                why: why@,
            },
            CaptureEvent::Read(Ok(text)) => CaptureEventView::Read(Ok(text@)),
            CaptureEvent::Read(Err(why)) => CaptureEventView::Read(Err(why@)),
        }
    }
}

impl View for CaptureAction {
    type V = CaptureActionView;

    open spec fn view(&self) -> CaptureActionView {
        match *self {
            CaptureAction::Fork { command } => CaptureActionView::Fork { command: command@ },
            CaptureAction::Read { stdout } => CaptureActionView::Read { stdout },
            CaptureAction::Return { output, diagnostic } => CaptureActionView::Return {
                output: optional_text(output),
                diagnostic: optional_text(diagnostic),
            },
        }
    }
}

/// What follows an event of a command whose output is captured.
pub open spec fn next_capture(event: CaptureEventView) -> CaptureActionView {
    match event {
        CaptureEventView::Requested { command } => CaptureActionView::Fork { command },
        CaptureEventView::Forked { outcome: Ok(forked), .. } => CaptureActionView::Read {
            stdout: forked.stdout,
        },
        CaptureEventView::Forked { outcome: Err(error), why } => CaptureActionView::Return {
            output: None,
            diagnostic: Some("ion: fork error: "@ + error_text(error, why)),
        },
        CaptureEventView::Read(Ok(text)) => CaptureActionView::Return {
            output: Some(text),
            diagnostic: None,
        },
        CaptureEventView::Read(Err(why)) => CaptureActionView::Return {
            output: None,
            diagnostic: Some("ion: error reading stdout of child: "@ + why),
        },
    }
}

/// A capture that ends without output says why, and one with output has nothing to say.
pub proof fn lemma_capture_reports_failure(event: CaptureEventView)
    ensures
        next_capture(event) matches CaptureActionView::Return { output, diagnostic } ==> (output is Some
            <==> diagnostic is None),
        next_capture(event) matches CaptureActionView::Return { output: Some(text), .. } ==> event
            == CaptureEventView::Read(Ok(text)),
{
}

/// A signal, by the mark under which it waits to be handled and by its number in the system.
#[derive(Clone, Copy, Debug, PartialEq, Eq, Structural)]
pub struct Signal {
    pub mark: usize,
    pub number: i32,
}

/// The signals that the shell handles.
#[derive(Clone, Copy, Debug, PartialEq, Eq, Structural)]
pub struct Signals {
    pub interrupt: Signal,
    pub hangup: Signal,
    pub terminate: Signal,
}

/// Whether a mark is that of a signal, or zero where no signal waits.
pub open spec fn is_pending_mark(pending: usize, signals: Signals) -> bool {
    pending == 0 || pending == signals.interrupt.mark || pending == signals.hangup.mark || pending
        == signals.terminate.mark
}

/// The number of the signal that waits under a mark.
pub open spec fn pending_signal(pending: usize, signals: Signals) -> Option<i32> {
    if pending == 0 {
        None
    } else if pending == signals.interrupt.mark {
        Some(signals.interrupt.number)
    } else if pending == signals.hangup.mark {
        Some(signals.hangup.number)
    } else {
        Some(signals.terminate.number)
    }
}

/// No mark tells no signal, and the mark of a signal tells that signal's own number. Where signals
/// share a mark the interrupt comes first, and then the hangup.
pub proof fn lemma_signal_has_its_number(pending: usize, signals: Signals)
    ensures
        pending == 0 ==> is_pending_mark(pending, signals) && pending_signal(pending, signals) is None,
        pending != 0 && pending == signals.interrupt.mark ==> is_pending_mark(pending, signals)
            && pending_signal(pending, signals) == Some(signals.interrupt.number),
        pending != 0 && pending != signals.interrupt.mark && pending == signals.hangup.mark
            ==> is_pending_mark(pending, signals) && pending_signal(pending, signals) == Some(
            signals.hangup.number,
        ),
        pending != 0 && pending != signals.interrupt.mark && pending != signals.hangup.mark
            && pending == signals.terminate.mark ==> is_pending_mark(pending, signals)
            && pending_signal(pending, signals) == Some(signals.terminate.number),
{
}

/// How the process ends.
#[derive(Clone, Copy, Debug, PartialEq, Eq, Structural)]
pub struct Exit {
    /// Whether the history has to be written out first.
    pub commit_history: bool,
    pub status: i32,
}

/// The working directory of the process.
pub enum WorkingDirectory {
    /// It cannot be determined.
    Unknown,
    /// Its path is not Unicode.
    Unreadable,
    /// It has this path.
    Path(String),
}

/// What a [`WorkingDirectory`] says.
pub enum WorkingDirectoryView {
    Unknown,
    Unreadable,
    Path(Seq<char>),
}

impl View for WorkingDirectory {
    type V = WorkingDirectoryView;

    open spec fn view(&self) -> WorkingDirectoryView {
        match *self {
            WorkingDirectory::Unknown => WorkingDirectoryView::Unknown,
            WorkingDirectory::Unreadable => WorkingDirectoryView::Unreadable,
            WorkingDirectory::Path(path) => WorkingDirectoryView::Path(path@),
        }
    }
}

/// The path of the working directory as the variable `PWD` shows it.
pub open spec fn shown_directory(directory: WorkingDirectoryView) -> Seq<char> {
    match directory {
        WorkingDirectoryView::Path(path) => path,
        _ => "?"@,
    }
}

/// The variables that a change of the working directory sets, in order.
pub open spec fn directory_updates(shell: ShellView, directory: WorkingDirectoryView) -> Seq<
    (Seq<char>, Seq<char>),
> {
    let pwd = shell.variables.string_or_empty("PWD"@);
    if directory is Unknown {
        seq![("PWD"@, "?"@)]
    } else if pwd != shown_directory(directory) {
        seq![("OLDPWD"@, pwd), ("PWD"@, shown_directory(directory))]
    } else {
        Seq::empty()
    }
}

/// The texts of names and values.
pub open spec fn assignments(updates: Seq<(String, String)>) -> Seq<(Seq<char>, Seq<char>)> {
    updates.map_values(|update: (String, String)| (update.0@, update.1@))
}

/// The shell after variables have been set one after the other.
pub open spec fn assigned(shell: ShellView, updates: Seq<(Seq<char>, Seq<char>)>) -> ShellView
    decreases updates.len(),
{
    if updates.len() == 0 {
        shell
    } else {
        assigned(shell, updates.drop_last()).with_string(updates.last().0, updates.last().1)
    }
}

/// Where `PWD`, or an empty text in its absence, is the path of the working directory, there is
/// nothing to set. Any other path is set as `PWD`, after the value that `PWD` had has been set as
/// `OLDPWD`. A path that is not Unicode is shown as a question mark, and so is a directory that is
/// not known; the latter sets `PWD` alone.
pub proof fn lemma_directory_updates_follow_path(shell: ShellView, path: Seq<char>)
    ensures
        ({
            let strings = shell.variables.strings;
            let pwd = if strings.contains_key("PWD"@) {
                strings["PWD"@]
            } else {
                Seq::empty()
            };
            &&& path == pwd ==> directory_updates(shell, WorkingDirectoryView::Path(path)).len() == 0
            &&& path != pwd ==> directory_updates(shell, WorkingDirectoryView::Path(path)) == seq![
                ("OLDPWD"@, pwd),
                ("PWD"@, path),
            ]
            &&& directory_updates(shell, WorkingDirectoryView::Unreadable) == directory_updates(
                shell,
                WorkingDirectoryView::Path("?"@),
            )
            &&& directory_updates(shell, WorkingDirectoryView::Unknown) == seq![("PWD"@, "?"@)]
        }),
{
}

/// After an update `PWD` shows the working directory, and a second update changes nothing; where
/// the directory is known, it has not even anything to set. A change of a known directory leaves
/// the one before in `OLDPWD`.
pub proof fn lemma_directory_update_settles(shell: ShellView, directory: WorkingDirectoryView)
    ensures
        ({
            let pwd = shell.variables.string_or_empty("PWD"@);
            let after = assigned(shell, directory_updates(shell, directory));
            &&& after.variables.string_or_empty("PWD"@) == shown_directory(directory)
            &&& assigned(after, directory_updates(after, directory)) == after
            &&& !(directory is Unknown) ==> directory_updates(after, directory)
                == Seq::<(Seq<char>, Seq<char>)>::empty()
            &&& !(directory is Unknown) && pwd != shown_directory(directory)
                ==> after.variables.string_or_empty("OLDPWD"@) == pwd
        }),
{
    reveal_strlit("PWD");
    reveal_strlit("OLDPWD");
    reveal_with_fuel(assigned, 3);
    assert("PWD"@.len() != "OLDPWD"@.len());
    let updates = directory_updates(shell, directory);
    if updates.len() == 2 {
        assert(updates.drop_last() =~= seq![updates[0]]);
        assert(updates.drop_last().drop_last() =~= Seq::empty());
    } else if updates.len() == 1 {
        assert(updates.drop_last() =~= Seq::empty());
    }
    let after = assigned(shell, updates);
    assert(assigned(after, directory_updates(after, directory)) =~= after) by {
        if directory is Unknown {
            assert(directory_updates(after, directory) == updates);
            assert(after == shell.with_string("PWD"@, "?"@));
            assert(after.with_string("PWD"@, "?"@).variables =~= after.variables);
        }
    }
}

impl Shell {
    /// Forks the shell, so that a child process works on a copy of it while its output is captured
    /// through pipes.
    ///
    /// Where a pipe cannot be opened or the process cannot be forked, what was opened is closed
    /// again, and the result is [`IonError::Fork`].
    pub fn fork(&self, event: ForkEvent) -> (action: ForkAction)
        ensures
            action@ == next_fork(self@, event),
    {
        match event {
            ForkEvent::Requested => ForkAction::OpenStdout,
            ForkEvent::StdoutOpened(Ok(stdout)) => ForkAction::OpenStderr { stdout },
            ForkEvent::StdoutOpened(Err(why)) => ForkAction::Return {
                close: Vec::new(),
                result: Err(IonError::Fork(why)),
            },
            ForkEvent::StderrOpened { stdout, opened: Ok(stderr) } => ForkAction::Fork {
                stdout,
                stderr,
            },
            ForkEvent::StderrOpened { stdout, opened: Err(why) } => ForkAction::Return {
                close: vec![stdout.write, stdout.read],
                result: Err(IonError::Fork(why)),
            },
            ForkEvent::Forked { stdout, stderr, forked: Ok(pid) } => if pid == 0 {
                ForkAction::RunChild {
                    stdout_to: stdout.write,
                    stderr_to: stderr.write,
                    close: vec![stdout.write, stdout.read, stderr.write, stderr.read],
                }
            } else {
                ForkAction::Return {
                    close: vec![stdout.write, stderr.write],
                    result: Ok(IonResult { pid, stdout: stdout.read, stderr: stderr.read }),
                }
            },
            ForkEvent::Forked { stdout, stderr, forked: Err(why) } => ForkAction::Return {
                close: vec![stderr.write, stderr.read, stdout.write, stdout.read],
                result: Err(IonError::Fork(why)),
            },
            ForkEvent::ChildDone => ForkAction::ExitChild(self.previous_status),
        }
    }

    /// Uses a forked shell to expand a command to its output.
    pub fn command(&self, event: CaptureEvent) -> (action: CaptureAction)
        ensures
            action@ == next_capture(event@),
    {
        match event {
            CaptureEvent::Requested { command } => CaptureAction::Fork { command },
            CaptureEvent::Forked { outcome: Ok(forked), why: _ } => CaptureAction::Read {
                stdout: forked.stdout,
            },
            CaptureEvent::Forked { outcome: Err(error), why } => {
                let text = error.describe(why.as_str());
                CaptureAction::Return {
                    output: None,
                    diagnostic: Some("ion: fork error: ".to_owned().concat(text.as_str())),
                }
            },
            CaptureEvent::Read(Ok(text)) => CaptureAction::Return {
                output: Some(text),
                diagnostic: None,
            },
            CaptureEvent::Read(Err(why)) => CaptureAction::Return {
                output: None,
                diagnostic: Some(
                    "ion: error reading stdout of child: ".to_owned().concat(why.as_str()),
                ),
            },
        }
    }

    /// The number of the signal that waits to be handled, if there is one. `pending` is the mark of
    /// the signal, or zero.
    pub fn next_signal(&self, pending: usize, signals: Signals) -> (signal: Option<i32>)
        requires
            is_pending_mark(pending, signals),
        ensures
            signal == pending_signal(pending, signals),
    {
        if pending == 0 {
            None
        } else if pending == signals.interrupt.mark {
            Some(signals.interrupt.number)
        } else if pending == signals.hangup.mark {
            Some(signals.hangup.number)
        } else {
            Some(signals.terminate.number)
        }
    }

    /// How the process ends that exits with the given status: a session with a line editor first
    /// writes out its history.
    pub fn exit(&self, status: i32) -> (exit: Exit)
        ensures
            exit == (Exit { commit_history: self@.has_context, status }),
    {
        Exit { commit_history: self.has_context, status }
    }

    /// The variables that have to be set, in order, before the next prompt is shown, so that they are
    /// consistent with the working directory.
    ///
    /// The caller sets each of them in the environment of the process and, with
    /// [`Shell::set_var`], in the shell. An update that is set in the environment alone would be
    /// asked for again, with a stale `PWD`, before every prompt.
    pub fn update_variables(&self, directory: WorkingDirectory) -> (updates: Vec<(String, String)>)
        ensures
            assignments(updates@) == directory_updates(self@, directory@),
    {
        let mut updates: Vec<(String, String)> = Vec::new();
        let current = match directory {
            WorkingDirectory::Unknown => {
                updates.push(("PWD".to_owned(), "?".to_owned()));
                assert(assignments(updates@) =~= seq![("PWD"@, "?"@)]);
                return updates;
            },
            WorkingDirectory::Unreadable => "?".to_owned(),
            WorkingDirectory::Path(path) => path,
        };
        let pwd = self.get_var_or_empty("PWD");
        if pwd != current {
            updates.push(("OLDPWD".to_owned(), pwd));
            updates.push(("PWD".to_owned(), current));
            assert(assignments(updates@) =~= seq![("OLDPWD"@, pwd@), ("PWD"@, current@)]);
        } else {
            assert(assignments(updates@) =~= Seq::empty());
        }
        updates
    }
}

} // verus!
