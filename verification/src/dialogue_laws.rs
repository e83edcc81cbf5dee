//! What holds of the whole course of a command, a script, a function, the file of initial commands,
//! a capture and an expansion of an array, whatever the caller's answers are.
//!
//! Between two steps of a dialogue the caller may have changed the shell.

use vstd::prelude::*;

use crate::error::{call_diagnostic, error_text, FunctionError, FunctionErrorView, IonError};
use crate::execute::{
    after_script, next_command, next_function, next_init, next_script, CommandAction,
    CommandEvent, FunctionAction, FunctionEvent, InitAction, InitActionView, InitEvent,
    InitEventView, ScriptAction, ScriptActionView, ScriptEvent, ScriptEventView,
};
use crate::process::{
    assignments, next_capture, CaptureAction, CaptureActionView, CaptureEvent, CaptureEventView,
    IonResult, WorkingDirectory, WorkingDirectoryView,
};
use crate::shell::{
    expands_to, follows_in_array, ArrayActionView, ArrayEventView, SelectionView, ShellView,
};
use crate::text::{is_writable, lemma_line_ends_do_not_matter, lines, written};
use crate::variables::{lookup, VariablesView};

verus! {

/// One step in the course of a command.
pub struct CommandStep {
    pub shell: ShellView,
    pub event: CommandEvent,
    pub action: CommandAction,
}

/// Whether an event tells the outcome of an action on a command.
pub open spec fn command_answers(action: CommandAction, event: CommandEvent) -> bool {
    action is Execute && event is Executed
}

/// Whether the steps form the course of a command, from its start on.
pub open spec fn is_command(steps: Seq<CommandStep>) -> bool {
    &&& steps.len() > 0
    &&& steps[0].event is Submitted
    &&& forall|i: int|
        0 <= i < steps.len() ==> (#[trigger] steps[i]).action == next_command(
            steps[i].shell,
            steps[i].event,
        )
    &&& forall|i: int, j: int|
        0 <= i && j == i + 1 && j < steps.len() ==> command_answers(
            (#[trigger] steps[i]).action,
            (#[trigger] steps[j]).event,
        )
}

/// A command is over after at most two steps, and is executed at most once.
pub proof fn lemma_command_is_executed_once(steps: Seq<CommandStep>, i: int, j: int)
    requires
        is_command(steps),
        0 <= i < j < steps.len(),
    ensures
        steps.len() == 2,
        steps[i].action is Execute,
        steps[j].action is Return,
{
    assert(command_answers(steps[0].action, steps[1].event));
    if steps.len() > 2 {
        assert(command_answers(steps[1].action, steps[2].event));
    }
}

/// A command that is over has given an error, without having been executed, where it was not
/// terminated. Otherwise its statement has been executed, and the result is the exit status that
/// the shell then held.
pub proof fn lemma_command_result(steps: Seq<CommandStep>, result: Result<i32, IonError>)
    requires
        is_command(steps),
        steps.last().action == CommandAction::Return(result),
    ensures
        match steps[0].event {
            CommandEvent::Submitted { statement: Some(text) } => {
                &&& steps.len() == 2
                &&& steps[0].action == CommandAction::Execute(text)
                &&& result == Ok::<i32, IonError>(steps[1].shell.previous_status)
            },
            _ => {
                &&& steps.len() == 1
                &&& result == Err::<i32, IonError>(IonError::Unterminated)
            },
        },
{
    if steps.len() > 1 {
        lemma_command_is_executed_once(steps, 0, 1);
        assert(command_answers(steps[0].action, steps[1].event));
    }
}

/// One step in the course of a script.
pub struct ScriptStep {
    pub before: ShellView,
    pub event: ScriptEventView,
    pub after: ShellView,
    pub action: ScriptActionView,
}

/// Whether an event tells the outcome of an action on a script.
pub open spec fn script_answers(action: ScriptActionView, event: ScriptEventView) -> bool {
    action is Execute && event is Executed
}

/// Whether the steps form the course of a script, from its start on.
pub open spec fn is_script(steps: Seq<ScriptStep>) -> bool {
    &&& steps.len() > 0
    &&& steps[0].event is Read
    &&& forall|i: int|
        0 <= i < steps.len() ==> ((#[trigger] steps[i]).after, steps[i].action) == next_script(
            steps[i].before,
            steps[i].event,
        )
    &&& forall|i: int, j: int|
        0 <= i && j == i + 1 && j < steps.len() ==> script_answers(
            (#[trigger] steps[i]).action,
            (#[trigger] steps[j]).event,
        )
}

/// A script is over after at most two steps, and is executed at most once.
pub proof fn lemma_script_is_executed_once(steps: Seq<ScriptStep>, i: int, j: int)
    requires
        is_script(steps),
        0 <= i < j < steps.len(),
    ensures
        steps.len() == 2,
        steps[i].action is Execute,
        steps[j].action is Return,
{
    assert(script_answers(steps[0].action, steps[1].event));
    if steps.len() > 2 {
        assert(script_answers(steps[1].action, steps[2].event));
    }
}

/// A script that is over has given the error where it could not be read, and left the shell alone.
/// Otherwise its lines have been executed, and the result is the exit status that the shell holds
/// now, which is a failure where the script as a whole failed.
pub proof fn lemma_script_result(steps: Seq<ScriptStep>, result: Result<i32, std::io::Error>)
    requires
        is_script(steps),
        steps.last().action == ScriptActionView::Return(result),
    ensures
        steps.last().after == (match steps.last().event {
            ScriptEventView::Executed(status) => after_script(steps.last().before, status),
            _ => steps.last().before,
        }),
        match steps[0].event {
            ScriptEventView::Read(Ok(text)) => {
                &&& steps.len() == 2
                &&& steps[0].action == ScriptActionView::Execute(lines(text))
                &&& steps[0].after == steps[0].before
                &&& result == Ok::<i32, std::io::Error>(steps[1].after.previous_status)
            },
            ScriptEventView::Read(Err(why)) => {
                &&& steps.len() == 1
                &&& result == Err::<i32, std::io::Error>(why)
            },
            _ => false,
        },
{
    if steps.len() > 1 {
        lemma_script_is_executed_once(steps, 0, 1);
        assert(script_answers(steps[0].action, steps[1].event));
    }
    assert(steps.last() == steps[steps.len() - 1]);
}

/// Two scripts that differ only in the endings of their lines are executed in the same way: their
/// lines may end in a line feed or in a carriage return with a line feed, in any mixture, and the
/// last line may have no ending.
pub proof fn lemma_script_ignores_line_ends(
    shell: ShellView,
    script: Seq<Seq<char>>,
    marks: Seq<bool>,
    closed: bool,
    other_marks: Seq<bool>,
    other_closed: bool,
)
    requires
        is_writable(script, marks, closed),
        is_writable(script, other_marks, other_closed),
    ensures
        next_script(shell, ScriptEventView::Read(Ok(written(script, marks, closed))))
            == next_script(
            shell,
            ScriptEventView::Read(Ok(written(script, other_marks, other_closed))),
        ),
{
    lemma_line_ends_do_not_matter(script, marks, closed, other_marks, other_closed);
}

/// One step in the course of a function that a program calls.
pub struct FunctionStep {
    pub shell: ShellView,
    pub event: FunctionEvent,
    pub action: FunctionAction,
}

/// Whether an event tells the outcome of an action on a function.
pub open spec fn function_answers(action: FunctionAction, event: FunctionEvent) -> bool {
    action is Call && event is Called
}

/// Whether the steps form the course of a function, from its start on.
pub open spec fn is_call(steps: Seq<FunctionStep>) -> bool {
    &&& steps.len() > 0
    &&& steps[0].event is Requested
    &&& forall|i: int|
        0 <= i < steps.len() ==> (#[trigger] steps[i]).action == next_function(
            steps[i].shell,
            steps[i].event,
        )
    &&& forall|i: int, j: int|
        0 <= i && j == i + 1 && j < steps.len() ==> function_answers(
            (#[trigger] steps[i]).action,
            (#[trigger] steps[j]).event,
        )
}

/// A function is over after at most two steps, and is called at most once.
pub proof fn lemma_function_is_called_once(steps: Seq<FunctionStep>, i: int, j: int)
    requires
        is_call(steps),
        0 <= i < j < steps.len(),
    ensures
        steps.len() == 2,
        steps[i].action is Call,
        steps[j].action is Return,
{
    assert(function_answers(steps[0].action, steps[1].event));
    if steps.len() > 2 {
        assert(function_answers(steps[1].action, steps[2].event));
    }
}

/// A function that is over has given an error, without a call, where there is no function of that
/// name. Otherwise it has been called with the arguments given, and the result is the exit status
/// that the shell then held, or why the arguments do not fit.
pub proof fn lemma_function_result(
    steps: Seq<FunctionStep>,
    name: String,
    args: Vec<String>,
    result: Result<i32, IonError>,
)
    requires
        is_call(steps),
        steps[0].event == (FunctionEvent::Requested { name, args }),
        steps.last().action == FunctionAction::Return(result),
    ensures
        match lookup(steps[0].shell.functions, name@) {
            Some(function) => {
                &&& steps.len() == 2
                &&& steps[0].action == (FunctionAction::Call { function, args })
                &&& match steps[1].event {
                    FunctionEvent::Called(Ok(_)) => result == Ok::<i32, IonError>(
                        steps[1].shell.previous_status,
                    ),
                    FunctionEvent::Called(Err(error)) => result == Err::<i32, IonError>(
                        IonError::Function(error),
                    ),
                    _ => false,
                }
            },
            None => {
                &&& steps.len() == 1
                &&& result == Err::<i32, IonError>(IonError::DoesNotExist)
            },
        },
{
    if steps.len() > 1 {
        lemma_function_is_called_once(steps, 0, 1);
        assert(function_answers(steps[0].action, steps[1].event));
    }
}

/// One step in the course of the file of initial commands.
pub struct InitStep {
    pub event: InitEventView,
    pub action: InitActionView,
}

/// Whether an event tells the outcome of an action on the file of initial commands.
pub open spec fn init_answers(action: InitActionView, event: InitEventView) -> bool {
    match action {
        InitActionView::Locate { .. } => event is Located,
        InitActionView::Probe { .. } => event is Probed,
        InitActionView::Evaluate => event is Evaluated,
        InitActionView::Create { .. } => event is Created,
        InitActionView::Finish { .. } => false,
    }
}

/// Whether the steps form the course of the file of initial commands, from its start on.
pub open spec fn is_init(steps: Seq<InitStep>) -> bool {
    &&& steps.len() > 0
    &&& steps[0].event is Requested
    &&& forall|i: int|
        0 <= i < steps.len() ==> (#[trigger] steps[i]).action == next_init(steps[i].event)
    &&& forall|i: int, j: int|
        0 <= i && j == i + 1 && j < steps.len() ==> init_answers(
            (#[trigger] steps[i]).action,
            (#[trigger] steps[j]).event,
        )
}

/// The file of initial commands is over after at most four steps.
pub proof fn lemma_init_is_bounded(steps: Seq<InitStep>)
    requires
        is_init(steps),
    ensures
        steps.len() <= 4,
{
    if steps.len() > 4 {
        assert(init_answers(steps[0].action, steps[1].event));
        assert(init_answers(steps[1].action, steps[2].event));
        assert(init_answers(steps[2].action, steps[3].event));
        assert(init_answers(steps[3].action, steps[4].event));
    }
}

/// The file of initial commands is either executed or created, and that at most once.
pub proof fn lemma_init_works_once(steps: Seq<InitStep>, i: int, j: int)
    requires
        is_init(steps),
        0 <= i < j < steps.len(),
        steps[i].action is Evaluate || steps[i].action is Create,
    ensures
        !(steps[j].action is Evaluate),
        !(steps[j].action is Create),
{
    lemma_init_is_bounded(steps);
    assert(init_answers(steps[i].action, steps[i + 1].event));
    if j > i + 1 {
        assert(init_answers(steps[i + 1].action, steps[i + 2].event));
    }
}

/// The course of the file of initial commands that is over has reported that there is no directory
/// for it, or has looked for the file there and has executed it if it was there, and created it
/// if not.
pub proof fn lemma_init_result(steps: Seq<InitStep>, diagnostic: Option<Seq<char>>)
    requires
        is_init(steps),
        steps.last().action == (InitActionView::Finish { diagnostic }),
    ensures
        steps.len() == 2 || steps.len() == 4,
        steps.len() == 2 ==> steps[1].event matches InitEventView::Located(Err(_)),
        steps.len() == 4 ==> {
            &&& steps[1].action == InitActionView::Probe { name: "initrc"@ }
            &&& steps[2].event matches InitEventView::Probed { exists, shown }
            &&& steps[2].action is Evaluate <==> exists
            &&& steps[2].action is Create <==> !exists
        },
        diagnostic is None <==> (steps.last().event matches InitEventView::Evaluated(Ok(_)))
            || (steps.last().event matches InitEventView::Created(Ok(_))),
{
    lemma_init_is_bounded(steps);
    assert(steps.last() == steps[steps.len() - 1]);
    if steps.len() > 1 {
        assert(init_answers(steps[0].action, steps[1].event));
    }
    if steps.len() > 2 {
        assert(init_answers(steps[1].action, steps[2].event));
    }
    if steps.len() > 3 {
        assert(init_answers(steps[2].action, steps[3].event));
    }
}

/// One step in the course of a capture.
pub struct CaptureStep {
    pub event: CaptureEventView,
    pub action: CaptureActionView,
}

/// Whether an event tells the outcome of an action on a capture.
pub open spec fn capture_answers(action: CaptureActionView, event: CaptureEventView) -> bool {
    match action {
        CaptureActionView::Fork { .. } => event is Forked,
        CaptureActionView::Read { .. } => event is Read,
        CaptureActionView::Return { .. } => false,
    }
}

/// Whether the steps form the course of a capture, from its start on.
pub open spec fn is_capture(steps: Seq<CaptureStep>) -> bool {
    &&& steps.len() > 0
    &&& steps[0].event is Requested
    &&& forall|i: int|
        0 <= i < steps.len() ==> (#[trigger] steps[i]).action == next_capture(steps[i].event)
    &&& forall|i: int, j: int|
        0 <= i && j == i + 1 && j < steps.len() ==> capture_answers(
            (#[trigger] steps[i]).action,
            (#[trigger] steps[j]).event,
        )
}

/// A capture is over after at most three steps. The shell is forked in the first one and the output
/// read in the second one, and never again.
pub proof fn lemma_capture_works_once(steps: Seq<CaptureStep>, i: int)
    requires
        is_capture(steps),
        0 <= i < steps.len(),
    ensures
        steps.len() <= 3,
        steps[i].action is Fork <==> i == 0,
        steps[i].action is Read ==> i == 1,
{
    if steps.len() > 1 {
        assert(capture_answers(steps[0].action, steps[1].event));
    }
    if steps.len() > 2 {
        assert(capture_answers(steps[1].action, steps[2].event));
    }
    if steps.len() > 3 {
        assert(capture_answers(steps[2].action, steps[3].event));
    }
}

/// A capture that is over has forked the shell for the command. Where that failed it reports the
/// error; otherwise it has read the output of the child, and gives what was read or reports why
/// nothing was.
pub proof fn lemma_capture_result(
    steps: Seq<CaptureStep>,
    output: Option<Seq<char>>,
    diagnostic: Option<Seq<char>>,
)
    requires
        is_capture(steps),
        steps.last().action == (CaptureActionView::Return { output, diagnostic }),
    ensures
        steps.len() >= 2,
        steps[0].event matches CaptureEventView::Requested { command } && steps[0].action == (
        CaptureActionView::Fork { command }),
        match steps[1].event {
            CaptureEventView::Forked { outcome: Ok(forked), .. } => {
                &&& steps.len() == 3
                &&& steps[1].action == (CaptureActionView::Read { stdout: forked.stdout })
                &&& match steps[2].event {
                    CaptureEventView::Read(Ok(text)) => output == Some(text) && diagnostic is None,
                    CaptureEventView::Read(Err(why)) => output is None && diagnostic == Some(
                        "ion: error reading stdout of child: "@ + why,
                    ),
                    _ => false,
                }
            },
            CaptureEventView::Forked { outcome: Err(error), why } => {
                &&& steps.len() == 2
                &&& output is None
                &&& diagnostic == Some("ion: fork error: "@ + error_text(error, why))
            },
            _ => false,
        },
{
    let last = steps.len() - 1;
    assert(steps.last() == steps[last]);
    lemma_capture_works_once(steps, last);
    lemma_capture_works_once(steps, 0);
    if steps.len() > 1 {
        assert(capture_answers(steps[0].action, steps[1].event));
    }
    if steps.len() > 2 {
        assert(capture_answers(steps[1].action, steps[2].event));
    }
}

/// One step in the expansion of an array.
pub struct ArrayStep {
    pub variables: VariablesView,
    pub event: ArrayEventView,
    pub action: ArrayActionView,
}

/// Whether an event starts the expansion of an array.
pub open spec fn starts_array(event: ArrayEventView) -> bool {
    match event {
        ArrayEventView::Selected(SelectionView::Index(_)) => false,
        ArrayEventView::Selected(SelectionView::Range(_)) => false,
        _ => true,
    }
}

/// Whether an event tells the outcome of an action in the expansion of an array.
pub open spec fn array_answers(action: ArrayActionView, event: ArrayEventView) -> bool {
    match action {
        ArrayActionView::ResolveIndex { .. } => event matches ArrayEventView::Selected(
            SelectionView::Index(_),
        ),
        ArrayActionView::ResolveRange { .. } => event matches ArrayEventView::Selected(
            SelectionView::Range(_),
        ),
        ArrayActionView::Return(_) => false,
    }
}

/// Whether the steps form an expansion of the array of the given name, from its start on.
pub open spec fn is_expansion(steps: Seq<ArrayStep>, name: Seq<char>) -> bool {
    &&& steps.len() > 0
    &&& starts_array(steps[0].event)
    &&& forall|i: int|
        0 <= i < steps.len() ==> follows_in_array(
            (#[trigger] steps[i]).variables,
            name,
            steps[i].event,
            steps[i].action,
        )
    &&& forall|i: int, j: int|
        0 <= i && j == i + 1 && j < steps.len() ==> array_answers(
            (#[trigger] steps[i]).action,
            (#[trigger] steps[j]).event,
        )
}

/// An expansion is over after at most two steps, and resolves an index or a range at most once.
pub proof fn lemma_expansion_resolves_once(steps: Seq<ArrayStep>, name: Seq<char>, i: int, j: int)
    requires
        is_expansion(steps, name),
        0 <= i < j < steps.len(),
    ensures
        steps.len() == 2,
        !(steps[i].action is Return),
        steps[j].action is Return,
{
    assert(array_answers(steps[0].action, steps[1].event));
    assert(follows_in_array(steps[1].variables, name, steps[1].event, steps[1].action));
    if steps.len() > 2 {
        assert(array_answers(steps[1].action, steps[2].event));
    }
}

/// An expansion that is over gives what its selection takes from the variables. An index or a range
/// without an array of the given name gives nothing.
pub proof fn lemma_expansion_result(
    steps: Seq<ArrayStep>,
    name: Seq<char>,
    found: Option<Seq<Seq<char>>>,
)
    requires
        is_expansion(steps, name),
        steps.last().action == ArrayActionView::Return(found),
    ensures
        match steps.last().event {
            ArrayEventView::Selected(selection) => expands_to(
                steps.last().variables,
                name,
                selection,
                found,
            ),
            _ => found is None && !steps[0].variables.arrays.contains_key(name),
        },
{
    if steps.len() > 1 {
        lemma_expansion_resolves_once(steps, name, 0, 1);
        assert(array_answers(steps[0].action, steps[1].event));
    }
    let last = steps.len() - 1;
    assert(follows_in_array(steps[last].variables, name, steps[last].event, steps[last].action));
}

/// A command is executed as it was handed over; without a statement it gives an error instead. Once
/// it has been executed its result is the exit status that the shell holds.
pub proof fn lemma_command_steps(shell: ShellView, text: String)
    ensures
        next_command(shell, CommandEvent::Submitted { statement: Some(text) })
            == CommandAction::Execute(text),
        next_command(shell, CommandEvent::Submitted { statement: None }) == CommandAction::Return(
            Err(IonError::Unterminated),
        ),
        next_command(shell, CommandEvent::Executed) == CommandAction::Return(
            Ok(shell.previous_status),
        ),
{
}

/// A script that was read is executed line by line, and one that was not gives the reason; neither
/// touches the shell. After its execution the exit status is a failure where the script failed, and
/// otherwise what the shell holds; it is both the result and what the shell holds from then on.
pub proof fn lemma_script_steps(
    shell: ShellView,
    text: Seq<char>,
    why: std::io::Error,
    status: i32,
)
    ensures
        next_script(shell, ScriptEventView::Read(Ok(text))) == (
            shell,
            ScriptActionView::Execute(lines(text)),
        ),
        next_script(shell, ScriptEventView::Read(Err(why))) == (
            shell,
            ScriptActionView::Return(Err(why)),
        ),
        ({
            let held = if status == 1 {
                1i32
            } else {
                shell.previous_status
            };
            next_script(shell, ScriptEventView::Executed(status)) == (
                ShellView { previous_status: held, ..shell },
                ScriptActionView::Return(Ok(held)),
            )
        }),
{
}

/// A function is called with exactly the arguments given where the shell has one of that name, and
/// with none of that name there is an error. After the call the result is the exit status that the
/// shell holds, or why the arguments do not fit.
pub proof fn lemma_function_steps(
    shell: ShellView,
    name: String,
    args: Vec<String>,
    error: FunctionError,
)
    ensures
        shell.functions.contains_key(name@) ==> next_function(
            shell,
            FunctionEvent::Requested { name, args },
        ) == (FunctionAction::Call { function: shell.functions[name@], args }),
        !shell.functions.contains_key(name@) ==> next_function(
            shell,
            FunctionEvent::Requested { name, args },
        ) == FunctionAction::Return(Err(IonError::DoesNotExist)),
        next_function(shell, FunctionEvent::Called(Ok(()))) == FunctionAction::Return(
            Ok(shell.previous_status),
        ),
        next_function(shell, FunctionEvent::Called(Err(error))) == FunctionAction::Return(
            Err(IonError::Function(error)),
        ),
{
}

/// The file of initial commands is looked for under its name in the user's configuration, executed
/// where it is there and created where it is not. What fails is reported with its reason, and what
/// goes well in silence.
pub proof fn lemma_init_steps(why: Seq<char>, shown: Seq<char>, status: i32)
    ensures
        next_init(InitEventView::Requested) == (InitActionView::Locate {
            name: "ion"@,
            author: "Redox OS Developers"@,
        }),
        next_init(InitEventView::Located(Ok(()))) == (InitActionView::Probe { name: "initrc"@ }),
        next_init(InitEventView::Located(Err(why))) == (InitActionView::Finish {
            diagnostic: Some("ion: unable to get config root: "@ + why),
        }),
        next_init(InitEventView::Probed { exists: true, shown }) is Evaluate,
        next_init(InitEventView::Probed { exists: false, shown }) == (InitActionView::Create {
            notice: "ion: creating initrc file at "@ + shown,
        }),
        next_init(InitEventView::Evaluated(Ok(status))) == (InitActionView::Finish {
            diagnostic: None,
        }),
        next_init(InitEventView::Evaluated(Err(why))) == (InitActionView::Finish {
            diagnostic: Some("ion: "@ + why),
        }),
        next_init(InitEventView::Created(Ok(()))) == (InitActionView::Finish { diagnostic: None }),
        next_init(InitEventView::Created(Err(why))) == (InitActionView::Finish {
            diagnostic: Some("ion: could not create initrc file: "@ + why),
        }),
{
}

/// A capture forks the shell for the very command that is wanted, reads the standard output of the
/// child and gives what was read, whole and unchanged. What fails gives no output, but a diagnostic
/// with the reason.
pub proof fn lemma_capture_steps(
    command: Seq<char>,
    forked: IonResult,
    failure: std::io::Error,
    text: Seq<char>,
    why: Seq<char>,
)
    ensures
        next_capture(CaptureEventView::Requested { command }) == (CaptureActionView::Fork {
            command,
        }),
        next_capture(CaptureEventView::Forked { outcome: Ok(forked), why }) == (
        CaptureActionView::Read { stdout: forked.stdout }),
        next_capture(
            CaptureEventView::Forked { outcome: Err(IonError::Fork(failure)), why },
        ) == (CaptureActionView::Return {
            output: None,
            diagnostic: Some("ion: fork error: "@ + ("failed to fork: "@ + why + "\n"@)),
        }),
        next_capture(CaptureEventView::Read(Ok(text))) == (CaptureActionView::Return {
            output: Some(text),
            diagnostic: None,
        }),
        next_capture(CaptureEventView::Read(Err(why))) == (CaptureActionView::Return {
            output: None,
            diagnostic: Some("ion: error reading stdout of child: "@ + why),
        }),
{
}

/// The text of an error says what went wrong and ends in a line feed. It shows the reason where the
/// error wraps one.
pub proof fn lemma_error_texts(failure: std::io::Error, error: FunctionError, why: Seq<char>)
    ensures
        error_text(IonError::Fork(failure), why) == "failed to fork: "@ + why + "\n"@,
        error_text(IonError::DoesNotExist, why) == "element does not exist\n"@,
        error_text(IonError::Function(error), why) == "function error: "@ + why + "\n"@,
        error_text(IonError::Unterminated, why) == "input was not terminated\n"@,
{
}

/// The diagnostic of a failed call says whether the number of arguments is wrong, or which type was
/// expected and what was found in its place.
pub proof fn lemma_call_diagnostics(expected: Seq<char>, value: Seq<char>)
    ensures
        call_diagnostic(FunctionErrorView::InvalidArgumentCount)
            == "ion: invalid number of function arguments supplied"@,
        call_diagnostic(FunctionErrorView::InvalidArgumentType(expected, value))
            == "ion: function argument has invalid type: expected "@ + expected
            + ", found value '"@ + value + "'"@,
{
}

/// What is seen of the events and actions of a script is their kind and everything that they hold;
/// lines are seen one by one.
pub proof fn lemma_script_is_seen(event: ScriptEvent, action: ScriptAction)
    ensures
        match event {
            ScriptEvent::Read(Ok(text)) => event@ == ScriptEventView::Read(Ok(text@)),
            ScriptEvent::Read(Err(why)) => event@ == ScriptEventView::Read(Err(why)),
            ScriptEvent::Executed(status) => event@ == ScriptEventView::Executed(status),
        },
        match action {
            ScriptAction::Execute(script) => {
                &&& action@ matches ScriptActionView::Execute(seen)
                &&& seen.len() == script@.len()
                &&& forall|i: int| 0 <= i < seen.len() ==> #[trigger] seen[i] == script@[i]@
            },
            ScriptAction::Return(result) => action@ == ScriptActionView::Return(result),
        },
{
}

/// What is seen of the events and actions of the file of initial commands is their kind and
/// everything that they hold.
pub proof fn lemma_init_is_seen(event: InitEvent, action: InitAction)
    ensures
        match event {
            InitEvent::Requested => event@ is Requested,
            InitEvent::Located(Ok(_)) => event@ matches InitEventView::Located(Ok(_)),
            InitEvent::Located(Err(why)) => event@ matches InitEventView::Located(Err(seen)) && seen
                == why@,
            InitEvent::Probed { exists, shown } => event@ == (InitEventView::Probed {
                exists,
                shown: shown@,
            }),
            InitEvent::Evaluated(Ok(status)) => event@ == InitEventView::Evaluated(Ok(status)),
            InitEvent::Evaluated(Err(why)) => event@ == InitEventView::Evaluated(Err(why@)),
            InitEvent::Created(Ok(_)) => event@ matches InitEventView::Created(Ok(_)),
            InitEvent::Created(Err(why)) => event@ matches InitEventView::Created(Err(seen)) && seen
                == why@,
        },
        match action {
            InitAction::Locate { name, author } => action@ == (InitActionView::Locate {
                name: name@,
                author: author@,
            }),
            InitAction::Probe { name } => action@ == (InitActionView::Probe { name: name@ }),
            InitAction::Evaluate => action@ is Evaluate,
            InitAction::Create { notice } => action@ == (InitActionView::Create {
                notice: notice@,
            }),
            InitAction::Finish { diagnostic: Some(line) } => action@ == (InitActionView::Finish {
                diagnostic: Some(line@),
            }),
            InitAction::Finish { diagnostic: None } => action@ == (InitActionView::Finish {
                diagnostic: None,
            }),
        },
{
}

/// What is seen of the events and actions of a capture is their kind and everything that they hold.
pub proof fn lemma_capture_is_seen(event: CaptureEvent, action: CaptureAction)
    ensures
        match event {
            CaptureEvent::Requested { command } => event@ == (CaptureEventView::Requested {
                command: command@,
            }),
            CaptureEvent::Forked { outcome, why } => event@ == (CaptureEventView::Forked {
                outcome,
                why: why@,
            }),
            CaptureEvent::Read(Ok(text)) => event@ == CaptureEventView::Read(Ok(text@)),
            CaptureEvent::Read(Err(why)) => event@ == CaptureEventView::Read(Err(why@)),
        },
        match action {
            CaptureAction::Fork { command } => action@ == (CaptureActionView::Fork {
                command: command@,
            }),
            CaptureAction::Read { stdout } => action@ == (CaptureActionView::Read { stdout }),
            CaptureAction::Return { output, diagnostic } => {
                &&& action@ matches CaptureActionView::Return { output: given, diagnostic: said }
                &&& given is Some <==> output is Some
                &&& output matches Some(text) ==> given == Some(text@)
                &&& said is Some <==> diagnostic is Some
                &&& diagnostic matches Some(line) ==> said == Some(line@)
            },
        },
{
}

/// What is seen of the working directory is whether it is known and readable, and its path. Of the
/// variables to be set, each name and each value is seen in its place.
pub proof fn lemma_directory_is_seen(
    directory: WorkingDirectory,
    updates: Seq<(String, String)>,
)
    ensures
        match directory {
            WorkingDirectory::Unknown => directory@ is Unknown,
            WorkingDirectory::Unreadable => directory@ is Unreadable,
            WorkingDirectory::Path(path) => directory@ == WorkingDirectoryView::Path(path@),
        },
        assignments(updates).len() == updates.len(),
        forall|i: int|
            0 <= i < updates.len() ==> (#[trigger] assignments(updates)[i]).0 == updates[i].0@
                && assignments(updates)[i].1 == updates[i].1@,
{
}

} // verus!
