//! How a shell executes commands, scripts and functions on behalf of a program.
//!
//! Each of these is a dialogue like the run of a pipeline: the caller tells an event, the shell
//! answers with an action, and the last action returns the result.

use vstd::prelude::*;
use vstd::string::*;

use crate::collections::map_get;
use crate::error::{FunctionError, IonError};
use crate::shell::{Function, Shell, ShellView, FAILURE};
use crate::text::{lines, split_lines, string_views};
use crate::variables::optional_text;

verus! {

/// What has happened to a command that a program wants executed.
pub enum CommandEvent {
    /// The command has been handed over. Its statement is absent where the command is not
    /// terminated, that is, where its text ends in the middle of a quotation or a block.
    Submitted { statement: Option<String> },
    /// The command has been executed.
    Executed,
}

/// What is to be done next with a command.
pub enum CommandAction {
    /// Execute the statement as the shell executes what is typed at its prompt.
    Execute(String),
    /// Return to the program.
    Return(Result<i32, IonError>),
}

/// What has happened to a script.
pub enum ScriptEvent {
    /// The script has been read, or could not be opened or read.
    Read(Result<String, std::io::Error>),
    /// The lines of the script have been executed, with this exit status.
    Executed(i32),
}

/// What is to be done next with a script.
pub enum ScriptAction {
    /// Execute the lines one after the other.
    Execute(Vec<String>),
    /// Return to the caller.
    Return(Result<i32, std::io::Error>),
}

/// What a [`ScriptEvent`] tells.
pub enum ScriptEventView {
    Read(Result<Seq<char>, std::io::Error>),
    Executed(i32),
}

/// What a [`ScriptAction`] asks for.
#[verifier::ext_equal]
pub enum ScriptActionView {
    Execute(Seq<Seq<char>>),
    Return(Result<i32, std::io::Error>),
}

impl View for ScriptEvent {
    type V = ScriptEventView;

    open spec fn view(&self) -> ScriptEventView {
        match *self {
            ScriptEvent::Read(Ok(text)) => ScriptEventView::Read(Ok(text@)),
            ScriptEvent::Read(Err(why)) => ScriptEventView::Read(Err(why)),
            ScriptEvent::Executed(status) => ScriptEventView::Executed(status),
        }
    }
}

impl View for ScriptAction {
    type V = ScriptActionView;

    open spec fn view(&self) -> ScriptActionView {
        match *self {
            ScriptAction::Execute(script) => ScriptActionView::Execute(string_views(script@)),
            ScriptAction::Return(result) => ScriptActionView::Return(result),
        }
    }
}

/// What has happened to a function that a program wants called.
pub enum FunctionEvent {
    /// The function of the given name is to be called with these arguments.
    Requested { name: String, args: Vec<String> },
    /// The function has been called.
    Called(Result<(), FunctionError>),
}

/// What is to be done next with a function.
pub enum FunctionAction {
    /// Call the function.
    Call { function: Function, args: Vec<String> },
    /// Return to the program.
    Return(Result<i32, IonError>),
}

/// What has happened to the file with the user's initial commands.
pub enum InitEvent {
    /// The file is to be evaluated.
    Requested,
    /// The directory of the user's configuration has been found, or could not be for this reason.
    Located(Result<(), String>),
    /// It is known whether the file exists, and how its path is shown.
    Probed { exists: bool, shown: String },
    /// The file has been evaluated, or could not be for this reason.
    Evaluated(Result<i32, String>),
    /// The file has been created, or could not be for this reason.
    Created(Result<(), String>),
}

/// What is to be done next with the file of initial commands.
pub enum InitAction {
    /// Find the directory of the user's configuration for the program of this name and author.
    Locate { name: &'static str, author: &'static str },
    /// Look for a file of this name in the directory of the user's configuration.
    Probe { name: &'static str },
    /// Execute the file as a script.
    Evaluate,
    /// Print the notice, then create the file.
    Create { notice: String },
    /// Print the diagnostic, if there is one, and go on without the file.
    Finish { diagnostic: Option<String> },
}

/// What an [`InitEvent`] tells.
pub enum InitEventView {
    Requested,
    Located(Result<(), Seq<char>>),
    Probed { exists: bool, shown: Seq<char> },
    Evaluated(Result<i32, Seq<char>>),
    Created(Result<(), Seq<char>>),
}

/// What an [`InitAction`] asks for.
#[verifier::ext_equal]
pub enum InitActionView {
    Locate { name: Seq<char>, author: Seq<char> },
    Probe { name: Seq<char> },
    Evaluate,
    Create { notice: Seq<char> },
    Finish { diagnostic: Option<Seq<char>> },
}

/// A result with the text of its error.
pub open spec fn result_text<T>(result: Result<T, String>) -> Result<T, Seq<char>> {
    match result {
        Ok(value) => Ok(value),
        Err(why) => Err(why@),
    }
}

impl View for InitEvent {
    type V = InitEventView;

    open spec fn view(&self) -> InitEventView {
        match *self {
            InitEvent::Requested => InitEventView::Requested,
            InitEvent::Located(result) => InitEventView::Located(result_text(result)),
            InitEvent::Probed { exists, shown } => InitEventView::Probed { exists, shown: shown@ },
            InitEvent::Evaluated(result) => InitEventView::Evaluated(result_text(result)),
            InitEvent::Created(result) => InitEventView::Created(result_text(result)),
        }
    }
}

impl View for InitAction {
    type V = InitActionView;

    open spec fn view(&self) -> InitActionView {
        match *self {
            InitAction::Locate { name, author } => InitActionView::Locate {
                name: name@,
                author: author@,
            },
            InitAction::Probe { name } => InitActionView::Probe { name: name@ },
            InitAction::Evaluate => InitActionView::Evaluate,
            InitAction::Create { notice } => InitActionView::Create { notice: notice@ },
            InitAction::Finish { diagnostic } => InitActionView::Finish {
                diagnostic: optional_text(diagnostic),
            },
        }
    }
}

/// What follows an event of the file of initial commands. The file is executed where it exists, and
/// created where it does not; what fails is reported and ends there.
pub open spec fn next_init(event: InitEventView) -> InitActionView {
    match event {
        InitEventView::Requested => InitActionView::Locate {
            name: "ion"@,
            author: "Redox OS Developers"@,
        },
        InitEventView::Located(Ok(())) => InitActionView::Probe { name: "initrc"@ },
        InitEventView::Located(Err(why)) => InitActionView::Finish {
            diagnostic: Some("ion: unable to get config root: "@ + why),
        },
        InitEventView::Probed { exists, shown } => if exists {
            InitActionView::Evaluate
        } else {
            InitActionView::Create { notice: "ion: creating initrc file at "@ + shown }
        },
        InitEventView::Evaluated(Ok(_)) => InitActionView::Finish { diagnostic: None },
        InitEventView::Evaluated(Err(why)) => InitActionView::Finish {
            diagnostic: Some("ion: "@ + why),
        },
        InitEventView::Created(Ok(())) => InitActionView::Finish { diagnostic: None },
        InitEventView::Created(Err(why)) => InitActionView::Finish {
            diagnostic: Some("ion: could not create initrc file: "@ + why),
        },
    }
}

/// What follows an event of a command.
pub open spec fn next_command(shell: ShellView, event: CommandEvent) -> CommandAction {
    match event {
        CommandEvent::Submitted { statement: Some(text) } => CommandAction::Execute(text),
        CommandEvent::Submitted { statement: None } => CommandAction::Return(
            Err(IonError::Unterminated),
        ),
        CommandEvent::Executed => CommandAction::Return(Ok(shell.previous_status)),
    }
}

/// The shell after a script has been executed with the given exit status.
pub open spec fn after_script(shell: ShellView, status: i32) -> ShellView {
    if status == FAILURE {
        ShellView { previous_status: FAILURE, ..shell }
    } else {
        shell
    }
}

/// The shell after an event of a script, and the action that follows.
pub open spec fn next_script(shell: ShellView, event: ScriptEventView) -> (
    ShellView,
    ScriptActionView,
) {
    match event {
        ScriptEventView::Read(Ok(text)) => (shell, ScriptActionView::Execute(lines(text))),
        ScriptEventView::Read(Err(why)) => (shell, ScriptActionView::Return(Err(why))),
        ScriptEventView::Executed(status) => {
            let after = after_script(shell, status);
            (after, ScriptActionView::Return(Ok(after.previous_status)))
        },
    }
}

/// What follows an event of a function.
pub open spec fn next_function(shell: ShellView, event: FunctionEvent) -> FunctionAction {
    match event {
        FunctionEvent::Requested { name, args } => if shell.functions.contains_key(name@) {
            FunctionAction::Call { function: shell.functions[name@], args }
        } else {
            FunctionAction::Return(Err(IonError::DoesNotExist))
        },
        FunctionEvent::Called(Ok(())) => FunctionAction::Return(Ok(shell.previous_status)),
        FunctionEvent::Called(Err(error)) => FunctionAction::Return(Err(IonError::Function(error))),
    }
}

/// A file of initial commands is created only where it does not exist, and executed only where it
/// does.
pub proof fn lemma_init_file_is_kept(event: InitEventView)
    ensures
        next_init(event) is Create ==> event matches InitEventView::Probed { exists: false, .. },
        next_init(event) is Evaluate ==> event matches InitEventView::Probed { exists: true, .. },
{
}

/// A script that fails leaves the failure behind, and any other script the exit status of its last
/// command; nothing else of the shell changes.
pub proof fn lemma_script_leaves_status(shell: ShellView, status: i32)
    ensures
        after_script(shell, status).previous_status == (if status == FAILURE {
            FAILURE
        } else {
            shell.previous_status
        }),
        after_script(shell, status) == (ShellView {
            previous_status: after_script(shell, status).previous_status,
            ..shell
        }),
{
}

impl Shell {
    /// Executes commands in the shell without capturing what they print.
    ///
    /// A command that is not terminated is not executed: it gives an error. Otherwise the result is
    /// the exit status that the shell holds after the command.
    pub fn execute_command(&self, event: CommandEvent) -> (action: CommandAction)
        ensures
            action == next_command(self@, event),
    {
        match event {
            CommandEvent::Submitted { statement: Some(text) } => CommandAction::Execute(text),
            CommandEvent::Submitted { statement: None } => CommandAction::Return(
                Err(IonError::Unterminated),
            ),
            CommandEvent::Executed => CommandAction::Return(Ok(self.previous_status)),
        }
    }

    /// Executes a script in the shell without capturing what it prints.
    ///
    /// The lines of the script are executed one after the other. The result is the exit status that
    /// the shell holds after the script, which is [`FAILURE`] where the script as a whole failed.
    pub fn execute_script(&mut self, event: ScriptEvent) -> (action: ScriptAction)
        ensures
            (final(self)@, action@) == next_script(old(self)@, event@),
    {
        match event {
            ScriptEvent::Read(Ok(text)) => ScriptAction::Execute(split_lines(text.as_str())),
            ScriptEvent::Read(Err(why)) => ScriptAction::Return(Err(why)),
            ScriptEvent::Executed(status) => {
                if status == FAILURE {
                    self.previous_status = FAILURE;
                }
                ScriptAction::Return(Ok(self.previous_status))
            },
        }
    }

    /// Calls the function of the given name.
    ///
    /// If there is no such function the result is [`IonError::DoesNotExist`]. Otherwise it is the
    /// exit status that the shell holds after the call, or the reason why the arguments do not fit.
    pub fn execute_function(&self, event: FunctionEvent) -> (action: FunctionAction)
        ensures
            action == next_function(self@, event),
    {
        match event {
            FunctionEvent::Requested { name, args } => match map_get(
                &self.functions,
                name.as_str(),
            ) {
                Some(function) => FunctionAction::Call { function: *function, args },
                None => FunctionAction::Return(Err(IonError::DoesNotExist)),
            },
            FunctionEvent::Called(Ok(())) => FunctionAction::Return(Ok(self.previous_status)),
            FunctionEvent::Called(Err(error)) => FunctionAction::Return(
                Err(IonError::Function(error)),
            ),
        }
    }

    /// Evaluates the file with the initial commands in the directory of the user's configuration,
    /// or creates it if it does not exist.
    pub fn evaluate_init_file(&self, event: InitEvent) -> (action: InitAction)
        ensures
            action@ == next_init(event@),
    {
        match event {
            InitEvent::Requested => InitAction::Locate {
                name: "ion",
                author: "Redox OS Developers",
            },
            InitEvent::Located(Ok(())) => InitAction::Probe { name: "initrc" },
            InitEvent::Located(Err(why)) => InitAction::Finish {
                diagnostic: Some("ion: unable to get config root: ".to_owned().concat(why.as_str())),
            },
            InitEvent::Probed { exists, shown } => if exists {
                InitAction::Evaluate
            } else {
                InitAction::Create {
                    notice: "ion: creating initrc file at ".to_owned().concat(shown.as_str()),
                }
            },
            InitEvent::Evaluated(Ok(_)) => InitAction::Finish { diagnostic: None },
            InitEvent::Evaluated(Err(why)) => InitAction::Finish {
                diagnostic: Some("ion: ".to_owned().concat(why.as_str())),
            },
            InitEvent::Created(Ok(())) => InitAction::Finish { diagnostic: None },
            InitEvent::Created(Err(why)) => InitAction::Finish {
                diagnostic: Some(
                    "ion: could not create initrc file: ".to_owned().concat(why.as_str()),
                ),
            },
        }
    }
}

} // verus!
