//! What holds of every run of a pipeline, whatever the caller's answers are.

use vstd::prelude::*;

use crate::error::FunctionErrorView;
use crate::execute::{
    next_command, next_function, CommandAction, CommandEvent, FunctionAction, FunctionEvent,
};
use crate::process::{next_fork, ForkActionView, ForkEvent};
use crate::run::{
    dispatched, expanded, flag_set, next_pipeline, next_step, records_summary, summary, tail,
    tellable, words_fit, JobView, Pipeline, RunAction, RunActionView, RunEvent, RunEventView,
};
use crate::shell::{Builtin, ShellView, FAILURE, NO_EXEC, PRINT_COMMS, SUCCESS};
use crate::text::{
    decimal, decimal_value, lemma_decimal_reads_back, lemma_nine_digits,
    lemma_zero_padded_reads_back, signed_decimal, zero_padded,
};
use crate::variables::lookup;

verus! {

/// One step of a run.
pub struct RunStep {
    /// The shell when the event is told.
    pub before: ShellView,
    /// The pipeline when the event is told.
    pub pipeline: Seq<JobView>,
    pub event: RunEventView,
    /// The shell when the action is given.
    pub after: ShellView,
    pub action: RunActionView,
}

/// Whether a step is one that the shell takes.
pub open spec fn taken(step: RunStep) -> bool {
    &&& tellable(step.before, step.pipeline, step.event)
    &&& (step.after, step.action) == next_step(step.before, step.pipeline, step.event)
}

/// Whether an event tells the outcome of an action.
pub open spec fn answers(action: RunActionView, event: RunEventView) -> bool {
    match action {
        RunActionView::SplitAliases(_) => event is AliasesSplit,
        RunActionView::ExpandBuiltin(asked) => event matches RunEventView::BuiltinExpanded {
            builtin,
            ..
        } && builtin == asked,
        RunActionView::InspectFunction(asked) => event matches RunEventView::FunctionInspected {
            function,
            ..
        } && function == asked,
        RunActionView::ExpandCommand => event is CommandExpanded,
        RunActionView::PrintBuiltin { builtin: asked, .. } =>
            event matches RunEventView::BuiltinPrinted { builtin } && builtin == asked,
        RunActionView::RunBuiltin { .. } => event is Executed,
        RunActionView::ExecutePipeline => event is Executed,
        RunActionView::CallFunction { .. } => event is Called,
        RunActionView::Report { status: told, .. } => event matches RunEventView::Reported {
            status,
        } && status == told,
        RunActionView::MeasureTime { status: told } => event matches RunEventView::Measured {
            status,
            ..
        } && status == told,
        RunActionView::Record { status: told, .. } => event matches RunEventView::Recorded {
            status,
            ..
        } && status == told,
        RunActionView::ReportRecording { status: told, .. } =>
            event matches RunEventView::RecordingReported { status } && status == told,
        RunActionView::Return(_) => false,
    }
}

/// Whether the steps form a run, from its start on. Between two steps the caller may have changed
/// the shell and the pipeline; the execution may even have used the pipeline up.
pub open spec fn is_run(steps: Seq<RunStep>) -> bool {
    &&& steps.len() > 0
    &&& steps[0].event is Started
    &&& forall|i: int| 0 <= i < steps.len() ==> taken(#[trigger] steps[i])
    &&& forall|i: int, j: int|
        0 <= i && j == i + 1 && j < steps.len() ==> answers(
            (#[trigger] steps[i]).action,
            (#[trigger] steps[j]).event,
        )
}

/// Whether an action executes the pipeline.
pub open spec fn executes(action: RunActionView) -> bool {
    action is RunBuiltin || action is ExecutePipeline || action is CallFunction
}

/// Whether an event is told after the pipeline has been executed.
pub open spec fn past_execution(event: RunEventView) -> bool {
    event is Executed || event is Called || event is Reported || event is Measured
        || event is Recorded || event is RecordingReported
}

/// The exit status that an event past the execution carries.
pub open spec fn told_status(event: RunEventView) -> Option<i32> {
    match event {
        RunEventView::Executed(code) => Some(code),
        RunEventView::Called(Err(_)) => Some(FAILURE),
        RunEventView::Reported { status } => status,
        RunEventView::Measured { status, .. } => status,
        RunEventView::Recorded { status, .. } => status,
        RunEventView::RecordingReported { status } => status,
        _ => None,
    }
}

/// The largest number of events that can follow an event in a run.
pub open spec fn steps_left(event: RunEventView) -> int {
    match event {
        RunEventView::Started => 7,
        RunEventView::AliasesSplit(_) => 6,
        RunEventView::BuiltinExpanded { .. } => 5,
        RunEventView::FunctionInspected { .. } => 5,
        RunEventView::CommandExpanded => 4,
        RunEventView::BuiltinPrinted { .. } => 4,
        RunEventView::Executed(_) => 3,
        RunEventView::Called(_) => 4,
        RunEventView::Reported { .. } => 3,
        RunEventView::Measured { .. } => 2,
        RunEventView::Recorded { .. } => 1,
        RunEventView::RecordingReported { .. } => 0,
    }
}

/// A run ends after at most eight steps.
pub proof fn lemma_run_is_bounded(steps: Seq<RunStep>)
    requires
        is_run(steps),
    ensures
        steps.len() <= 8,
{
    lemma_steps_left(steps, steps.len() - 1);
}

proof fn lemma_steps_left(steps: Seq<RunStep>, i: int)
    requires
        is_run(steps),
        0 <= i < steps.len(),
    ensures
        0 <= steps_left(steps[i].event) <= 7 - i,
    decreases i,
{
    if i > 0 {
        lemma_steps_left(steps, i - 1);
        assert(taken(steps[i - 1]));
        assert(answers(steps[i - 1].action, steps[i].event));
    }
}

/// A pipeline is executed at most once in a run.
pub proof fn lemma_run_executes_once(steps: Seq<RunStep>, i: int, j: int)
    requires
        is_run(steps),
        0 <= i < j < steps.len(),
        executes(steps[i].action),
    ensures
        !executes(steps[j].action),
{
    lemma_stays_past_execution(steps, i, j);
    assert(taken(steps[j]));
}

proof fn lemma_stays_past_execution(steps: Seq<RunStep>, i: int, j: int)
    requires
        is_run(steps),
        0 <= i < j < steps.len(),
        executes(steps[i].action) || past_execution(steps[i].event),
    ensures
        past_execution(steps[j].event),
        past_execution(steps[i].event) ==> told_status(steps[j].event) == told_status(
            steps[i].event,
        ),
    decreases j - i,
{
    if j > i + 1 {
        lemma_stays_past_execution(steps, i, j - 1);
    }
    assert(taken(steps[j - 1]));
    assert(answers(steps[j - 1].action, steps[j].event));
}

/// The exit status with which a pipeline was executed is the one with which its run ends.
pub proof fn lemma_run_returns_execution_status(steps: Seq<RunStep>, i: int, status: Option<i32>)
    requires
        is_run(steps),
        0 <= i < steps.len(),
        past_execution(steps[i].event),
        steps.last().action == RunActionView::Return(status),
    ensures
        status == told_status(steps[i].event),
{
    let last = steps.len() - 1;
    if i < last {
        lemma_stays_past_execution(steps, i, last);
    }
    assert(taken(steps[last]));
}

/// A step changes the shell only when it ends the run with an exit status. That status is then the
/// previous status and the value of the variable `?`, and nothing else has changed.
pub proof fn lemma_run_sets_status(step: RunStep)
    requires
        taken(step),
    ensures
        step.action matches RunActionView::Return(Some(code)) ==> {
            &&& step.after.previous_status == code
            &&& lookup(step.after.variables.strings, "?"@) == Some(signed_decimal(code as int))
            &&& step.after == ShellView {
                previous_status: code,
                ..step.before.with_string("?"@, signed_decimal(code as int))
            }
        },
        !(step.action matches RunActionView::Return(Some(_))) ==> step.after == step.before,
{
}

/// The exit status of the last pipeline is what a program is told that had the shell execute a
/// command or a function, and what a forked shell exits with.
pub proof fn lemma_status_reaches_callers(step: RunStep, code: i32)
    requires
        taken(step),
        step.action == RunActionView::Return(Some(code)),
    ensures
        next_command(step.after, CommandEvent::Executed) == CommandAction::Return(Ok(code)),
        next_function(step.after, FunctionEvent::Called(Ok(()))) == FunctionAction::Return(Ok(code)),
        next_fork(step.after, ForkEvent::ChildDone) == ForkActionView::ExitChild(code),
{
}

/// A shell that executes nothing never runs a built-in command.
pub proof fn lemma_no_exec_runs_no_builtin(step: RunStep)
    requires
        taken(step),
        step.before.flags & NO_EXEC != 0,
    ensures
        !(step.action is RunBuiltin),
{
}

/// Whether a step leaves a built-in command unexecuted because the shell executes nothing.
pub open spec fn skips(step: RunStep) -> bool {
    &&& flag_set(step.before, NO_EXEC)
    &&& step.event is BuiltinExpanded || step.event is BuiltinPrinted
    &&& step.action is MeasureTime || step.action is Return
}

/// Whether a step concludes the run: what was to be executed has been, or has been skipped, and
/// nothing remains to be reported.
pub open spec fn concludes(step: RunStep) -> bool {
    ||| skips(step)
    ||| step.event is Executed
    ||| step.event matches RunEventView::Called(Ok(_))
    ||| step.event is Reported
}

proof fn lemma_executed_or_skipped(steps: Seq<RunStep>, i: int)
    requires
        is_run(steps),
        0 <= i < steps.len(),
        past_execution(steps[i].event),
    ensures
        ({
            ||| exists|j: int| 0 <= j < i && executes((#[trigger] steps[j]).action)
            ||| told_status(steps[i].event) == Some(SUCCESS) && exists|j: int|
                0 <= j < i && skips(#[trigger] steps[j])
        }),
    decreases i,
{
    assert(i > 0);
    assert(taken(steps[i - 1]));
    assert(answers(steps[i - 1].action, steps[i].event));
    if past_execution(steps[i - 1].event) {
        lemma_executed_or_skipped(steps, i - 1);
        lemma_stays_past_execution(steps, i - 1, i);
    } else {
        assert(executes(steps[i - 1].action) || skips(steps[i - 1]));
    }
}

/// A run that has ended has executed its pipeline, unless it has left a built-in command
/// unexecuted because the shell executes nothing; then it ends with success.
pub proof fn lemma_ended_run_has_executed(steps: Seq<RunStep>, status: Option<i32>)
    requires
        is_run(steps),
        steps.last().action == RunActionView::Return(status),
    ensures
        ({
            ||| exists|j: int| 0 <= j < steps.len() && executes((#[trigger] steps[j]).action)
            ||| status == Some(SUCCESS) && exists|j: int|
                0 <= j < steps.len() && skips(#[trigger] steps[j])
        }),
{
    let last = steps.len() - 1;
    assert(taken(steps[last]));
    if past_execution(steps[last].event) {
        lemma_executed_or_skipped(steps, last);
    } else {
        assert(skips(steps[last]));
    }
}

/// What is executed is what the pipeline asks for: the built-in command or the function of that
/// name inside the shell where no pipes are needed, and processes everywhere else.
pub proof fn lemma_execution_fits_pipeline(steps: Seq<RunStep>, i: int)
    requires
        is_run(steps),
        0 <= i < steps.len(),
    ensures
        steps[i].action matches RunActionView::RunBuiltin { builtin, args } ==> {
            &&& args == steps[i].pipeline[0].args
            &&& exists|j: int|
                0 <= j < i && (#[trigger] steps[j]).action == RunActionView::ExpandBuiltin(builtin)
        },
        steps[i].action matches RunActionView::CallFunction { function, args } ==> {
            &&& args == steps[i].pipeline[0].args
            &&& exists|j: int|
                0 <= j < i && (#[trigger] steps[j]).action == RunActionView::InspectFunction(function)
        },
        steps[i].action is ExecutePipeline ==> match steps[i].event {
            RunEventView::BuiltinExpanded { piping, .. } => piping,
            RunEventView::FunctionInspected { piping, .. } => piping,
            event => event is CommandExpanded,
        },
{
    assert(taken(steps[i]));
    if i > 0 {
        assert(taken(steps[i - 1]));
        assert(answers(steps[i - 1].action, steps[i].event));
    }
    if i > 1 {
        assert(answers(steps[i - 2].action, steps[i - 1].event));
        assert(taken(steps[i - 2]));
    }
}

/// A summary is recorded only where, at the conclusion of the run, the session had a line editor
/// and the variable `RECORD_SUMMARY` was `1`.
pub proof fn lemma_summary_only_on_request(steps: Seq<RunStep>, i: int)
    requires
        is_run(steps),
        0 <= i < steps.len(),
        steps[i].action is Record,
    ensures
        i > 0,
        concludes(steps[i - 1]),
        records_summary(steps[i - 1].before),
{
    assert(taken(steps[i]));
    assert(answers(steps[i - 1].action, steps[i].event));
    assert(taken(steps[i - 1]));
}

/// A run whose conclusion finds a line editor and the variable `RECORD_SUMMARY` at `1` takes the
/// time and, where the clock gives one, records the summary of it; any other run ends there.
pub proof fn lemma_summary_on_request(steps: Seq<RunStep>, i: int)
    requires
        is_run(steps),
        0 <= i < steps.len(),
        concludes(steps[i]),
    ensures
        steps[i].action is MeasureTime <==> records_summary(steps[i].before),
        steps[i].action is Return <==> !records_summary(steps[i].before),
        records_summary(steps[i].before) && i + 1 < steps.len() ==> {
            &&& steps[i + 1].event matches RunEventView::Measured { status, elapsed }
            &&& elapsed matches Some((seconds, nanoseconds)) ==> steps[i + 1].action
                == (RunActionView::Record { line: summary(seconds, nanoseconds), status })
        },
{
    assert(taken(steps[i]));
    if i + 1 < steps.len() {
        assert(answers(steps[i].action, steps[i + 1].event));
        assert(taken(steps[i + 1]));
    }
}

/// A built-in command stands before a function of the same name, and both before any program.
pub proof fn lemma_builtin_stands_before_function(shell: ShellView, command: Seq<char>)
    ensures
        shell.builtins.contains_key(command) ==> dispatched(shell, command)
            == RunActionView::ExpandBuiltin(shell.builtins[command]),
        dispatched(shell, command) is InspectFunction ==> !shell.builtins.contains_key(command),
        dispatched(shell, command) is ExpandCommand <==> !shell.builtins.contains_key(command)
            && !shell.functions.contains_key(command),
{
}

/// Whether the first argument of a job is its command.
pub open spec fn led_by_command(job: JobView) -> bool {
    job.args.len() > 0 && job.args[0] == job.command
}

/// The expansion of aliases keeps the number of jobs, leaves a job without an alias alone, and
/// gives a job with an alias the words of the alias in place of its command, before its other
/// arguments. What it gives is not expanded again.
pub proof fn lemma_aliases_expand_once(
    shell: ShellView,
    pipeline: Seq<JobView>,
    words: Seq<Seq<Seq<char>>>,
    i: int,
)
    requires
        words_fit(shell, pipeline, words),
        0 <= i < pipeline.len(),
    ensures
        expanded(shell, pipeline, words).len() == pipeline.len(),
        !shell.variables.aliases.contains_key(pipeline[i].command) ==> expanded(
            shell,
            pipeline,
            words,
        )[i] == pipeline[i],
        shell.variables.aliases.contains_key(pipeline[i].command) ==> {
            &&& expanded(shell, pipeline, words)[i].args == words[i] + tail(pipeline[i].args)
            &&& led_by_command(expanded(shell, pipeline, words)[i])
        },
        led_by_command(pipeline[i]) ==> led_by_command(expanded(shell, pipeline, words)[i]),
{
}

/// The start of a run changes nothing. It asks, job by job, for the words of the alias of the job's
/// command: there is a text exactly where the shell has such an alias, and the text is that alias.
pub proof fn lemma_start_asks_for_aliases(shell: ShellView, pipeline: Seq<JobView>)
    ensures
        ({
            let (after, action) = next_step(shell, pipeline, RunEventView::Started);
            &&& after == shell
            &&& action matches RunActionView::SplitAliases(asked)
            &&& asked.len() == pipeline.len()
            &&& forall|i: int|
                0 <= i < pipeline.len() ==> {
                    let command = pipeline[i].command;
                    if shell.variables.aliases.contains_key(command) {
                        #[trigger] asked[i] == Some(shell.variables.aliases[command])
                    } else {
                        asked[i] is None
                    }
                }
        }),
{
}

/// The expansion of an alias into words loses none of the arguments that follow the command and
/// changes none of them. A job with `n > 0` arguments has the words first, and then its arguments
/// from the second one on, in order; its command is the first of all these.
pub proof fn lemma_alias_keeps_arguments(
    shell: ShellView,
    pipeline: Seq<JobView>,
    words: Seq<Seq<Seq<char>>>,
    i: int,
)
    requires
        0 <= i < pipeline.len(),
        shell.variables.aliases.contains_key(pipeline[i].command),
    ensures
        ({
            let given = pipeline[i].args;
            let job = next_pipeline(shell, pipeline, RunEventView::AliasesSplit(words))[i];
            &&& given.len() > 0 ==> job.args.len() == words[i].len() + given.len() - 1
            &&& given.len() == 0 ==> job.args.len() == words[i].len()
            &&& forall|k: int|
                0 <= k < words[i].len() ==> #[trigger] job.args[k] == #[trigger] words[i][k]
            &&& forall|k: int|
                1 <= k < given.len() ==> job.args[words[i].len() + k - 1] == #[trigger] given[k]
            &&& job.command == job.args[0]
        }),
{
}

/// A run keeps its jobs. Only the expansion of aliases changes any of them, and of these only the
/// jobs whose command has an alias.
pub proof fn lemma_only_aliases_change_jobs(
    shell: ShellView,
    pipeline: Seq<JobView>,
    event: RunEventView,
    i: int,
)
    requires
        0 <= i < pipeline.len(),
    ensures
        next_pipeline(shell, pipeline, event).len() == pipeline.len(),
        next_pipeline(shell, pipeline, event)[i] != pipeline[i] ==> event is AliasesSplit
            && shell.variables.aliases.contains_key(pipeline[i].command),
{
}

/// The command of the first job, after the expansion of its alias, decides how the run goes on: a
/// built-in command of that name comes first, then a function of that name, and then a program.
/// The shell stays as it was.
pub proof fn lemma_first_command_decides(
    shell: ShellView,
    pipeline: Seq<JobView>,
    words: Seq<Seq<Seq<char>>>,
)
    requires
        pipeline.len() > 0,
        shell.variables.aliases.contains_key(pipeline[0].command) ==> words[0].len() > 0
            || pipeline[0].args.len() > 1,
    ensures
        ({
            let (after, action) = next_step(shell, pipeline, RunEventView::AliasesSplit(words));
            let command = if !shell.variables.aliases.contains_key(pipeline[0].command) {
                pipeline[0].command
            } else if words[0].len() > 0 {
                words[0][0]
            } else {
                pipeline[0].args[1]
            };
            &&& after == shell
            &&& shell.builtins.contains_key(command) ==> action == RunActionView::ExpandBuiltin(
                shell.builtins[command],
            )
            &&& !shell.builtins.contains_key(command) && shell.functions.contains_key(command)
                ==> action == RunActionView::InspectFunction(shell.functions[command])
            &&& !shell.builtins.contains_key(command) && !shell.functions.contains_key(command)
                ==> action is ExpandCommand
        }),
{
}

/// A pipeline is executed with a process for each job exactly where it needs pipes or starts with
/// a program, however many jobs it has and whatever the state of the shell, which stays as it was.
pub proof fn lemma_pipes_take_processes(
    shell: ShellView,
    pipeline: Seq<JobView>,
    event: RunEventView,
)
    ensures
        event matches RunEventView::BuiltinExpanded { piping: true, .. } ==> next_step(
            shell,
            pipeline,
            event,
        ) == (shell, RunActionView::ExecutePipeline),
        event matches RunEventView::FunctionInspected { piping: true, .. } ==> next_step(
            shell,
            pipeline,
            event,
        ) == (shell, RunActionView::ExecutePipeline),
        event is CommandExpanded ==> next_step(shell, pipeline, event) == (
            shell,
            RunActionView::ExecutePipeline,
        ),
        next_step(shell, pipeline, event).1 is ExecutePipeline ==> {
            ||| event matches RunEventView::BuiltinExpanded { piping: true, .. }
            ||| event matches RunEventView::FunctionInspected { piping: true, .. }
            ||| event is CommandExpanded
        },
{
}

/// A function is called inside the shell exactly where its pipeline needs no pipes, and it is given
/// every argument of the first job, in order.
pub proof fn lemma_function_is_called_without_pipes(
    shell: ShellView,
    pipeline: Seq<JobView>,
    event: RunEventView,
)
    ensures
        event matches RunEventView::FunctionInspected { function, piping: false } ==> {
            let (after, action) = next_step(shell, pipeline, event);
            &&& after == shell
            &&& action matches RunActionView::CallFunction { function: called, args }
            &&& called == function
            &&& args.len() == pipeline[0].args.len()
            &&& forall|k: int|
                0 <= k < args.len() ==> #[trigger] args[k] == #[trigger] pipeline[0].args[k]
        },
        next_step(shell, pipeline, event).1 is CallFunction ==> event matches
            RunEventView::FunctionInspected { piping: false, .. },
{
}

/// A shell that prints its commands shows a built-in command that needs no pipes before it runs it:
/// the line is a mark and a blank, followed by the whole text of the pipeline. No other shell does.
pub proof fn lemma_builtin_is_shown_on_request(
    shell: ShellView,
    pipeline: Seq<JobView>,
    event: RunEventView,
)
    ensures
        event matches RunEventView::BuiltinExpanded { builtin, piping: false, rendered } ==> (
        shell.flags & PRINT_COMMS != 0 ==> {
            let (after, action) = next_step(shell, pipeline, event);
            &&& after == shell
            &&& action matches RunActionView::PrintBuiltin { builtin: shown, line }
            &&& shown == builtin
            &&& line.len() == rendered.len() + 2
            &&& line[0] == '>'
            &&& line[1] == ' '
            &&& forall|k: int| 0 <= k < rendered.len() ==> line[k + 2] == #[trigger] rendered[k]
        }),
        next_step(shell, pipeline, event).1 is PrintBuiltin ==> shell.flags & PRINT_COMMS != 0 && (
        event matches RunEventView::BuiltinExpanded { piping: false, .. }),
{
    reveal_strlit("> ");
}

/// A built-in command that needs no pipes is run inside the shell, with every argument of the first
/// job, in order, once it has been shown where it has to be. A shell that executes nothing takes it
/// to have succeeded instead.
pub proof fn lemma_builtin_is_run_without_pipes(
    shell: ShellView,
    pipeline: Seq<JobView>,
    event: RunEventView,
    builtin: Builtin,
    rendered: Seq<char>,
)
    requires
        event == (RunEventView::BuiltinPrinted { builtin }) || event == (
        RunEventView::BuiltinExpanded { builtin, piping: false, rendered }) && shell.flags
            & PRINT_COMMS == 0,
    ensures
        shell.flags & NO_EXEC == 0 ==> {
            let (after, action) = next_step(shell, pipeline, event);
            &&& after == shell
            &&& action matches RunActionView::RunBuiltin { builtin: run, args }
            &&& run == builtin
            &&& args.len() == pipeline[0].args.len()
            &&& forall|k: int|
                0 <= k < args.len() ==> #[trigger] args[k] == #[trigger] pipeline[0].args[k]
        },
        shell.flags & NO_EXEC != 0 ==> next_step(shell, pipeline, event) == next_step(
            shell,
            pipeline,
            RunEventView::Executed(0),
        ),
{
}

/// Once the pipeline has been executed, and its failure reported where a call failed, the run either
/// takes the time, in a session with a line editor whose variable `RECORD_SUMMARY` is `1`, or ends.
/// Either way it goes on with the exit status of the execution; a function that was called leaves
/// none of its own.
pub proof fn lemma_execution_is_concluded(
    shell: ShellView,
    pipeline: Seq<JobView>,
    event: RunEventView,
    status: Option<i32>,
)
    requires
        ({
            ||| event matches RunEventView::Executed(code) && status == Some(code)
            ||| event matches RunEventView::Called(Ok(_)) && status is None
            ||| event == RunEventView::Reported { status }
        }),
    ensures
        ({
            let strings = shell.variables.strings;
            if shell.has_context && strings.contains_key("RECORD_SUMMARY"@)
                && strings["RECORD_SUMMARY"@] == "1"@ {
                next_step(shell, pipeline, event) == (shell, RunActionView::MeasureTime { status })
            } else {
                next_step(shell, pipeline, event).1 == RunActionView::Return(status)
            }
        }),
{
    reveal_strlit("1");
    assert("1"@.len() != Seq::<char>::empty().len());
}

/// A call that fails is reported, with what is wrong about the arguments, and the pipeline is then
/// taken to have failed.
pub proof fn lemma_failed_call_is_reported(
    shell: ShellView,
    pipeline: Seq<JobView>,
    expected: Seq<char>,
    value: Seq<char>,
)
    ensures
        next_step(
            shell,
            pipeline,
            RunEventView::Called(Err(FunctionErrorView::InvalidArgumentCount)),
        ) == (
            shell,
            RunActionView::Report {
                line: "ion: invalid number of function arguments supplied"@,
                status: Some(1i32),
            },
        ),
        next_step(
            shell,
            pipeline,
            RunEventView::Called(Err(FunctionErrorView::InvalidArgumentType(expected, value))),
        ) == (
            shell,
            RunActionView::Report {
                line: "ion: function argument has invalid type: expected "@ + expected
                    + ", found value '"@ + value + "'"@,
                status: Some(1i32),
            },
        ),
{
}

/// The time that was taken is recorded: the seconds in decimal notation, and the nanoseconds as the
/// nine digits of a fraction. Without a time, and once the summary is recorded or the failure to
/// record it reported, the run ends. The exit status is carried through.
pub proof fn lemma_summary_is_recorded(
    shell: ShellView,
    pipeline: Seq<JobView>,
    status: Option<i32>,
    seconds: u64,
    nanoseconds: u32,
    why: Seq<char>,
)
    ensures
        ({
            let elapsed = Some((seconds, nanoseconds));
            let (after, action) = next_step(
                shell,
                pipeline,
                RunEventView::Measured { status, elapsed },
            );
            &&& after == shell
            &&& action matches RunActionView::Record { line, status: carried }
            &&& carried == status
            &&& line == summary(seconds, nanoseconds)
            &&& line == "#summary# elapsed real time: "@ + decimal(seconds as nat) + "."@
                + zero_padded(nanoseconds as nat, 9) + " seconds"@
            &&& decimal_value(decimal(seconds as nat)) == seconds
            &&& decimal_value(zero_padded(nanoseconds as nat, 9)) == nanoseconds
            &&& nanoseconds < 1_000_000_000 ==> zero_padded(nanoseconds as nat, 9).len() == 9
        }),
        next_step(
            shell,
            pipeline,
            RunEventView::Recorded { status, failure: Some(why) },
        ) == (
            shell,
            RunActionView::ReportRecording { line: "ion: "@ + why + "\n"@, status },
        ),
        next_step(shell, pipeline, RunEventView::Measured { status, elapsed: None }).1
            == RunActionView::Return(status),
        next_step(shell, pipeline, RunEventView::Recorded { status, failure: None }).1
            == RunActionView::Return(status),
        next_step(shell, pipeline, RunEventView::RecordingReported { status }).1
            == RunActionView::Return(status),
{
    lemma_decimal_reads_back(seconds as nat);
    lemma_zero_padded_reads_back(nanoseconds as nat, 9);
    if nanoseconds < 1_000_000_000 {
        lemma_nine_digits(nanoseconds as nat);
    }
}

/// The end of a run with an exit status sets the previous status to it and the variable `?` to its
/// decimal notation, and touches nothing else; every other step leaves the whole shell as it was.
pub proof fn lemma_step_changes_only_status(
    shell: ShellView,
    pipeline: Seq<JobView>,
    event: RunEventView,
)
    ensures
        ({
            let (after, action) = next_step(shell, pipeline, event);
            match action {
                RunActionView::Return(Some(code)) => {
                    &&& after.previous_status == code
                    &&& after.variables.strings == shell.variables.strings.insert(
                        "?"@,
                        signed_decimal(code as int),
                    )
                    &&& after.variables.aliases == shell.variables.aliases
                    &&& after.variables.arrays == shell.variables.arrays
                    &&& after.variables.hashmaps == shell.variables.hashmaps
                    &&& after == (ShellView {
                        previous_status: after.previous_status,
                        variables: after.variables,
                        ..shell
                    })
                },
                _ => after == shell,
            }
        }),
{
}

/// Every event can be told, whatever the state of the shell, but for those after which the first job
/// is looked at of a pipeline without jobs, and for words of aliases that leave a job with nothing
/// to take its command from.
pub proof fn lemma_events_are_tellable(
    shell: ShellView,
    pipeline: Seq<JobView>,
    event: RunEventView,
)
    ensures
        !(event is AliasesSplit) && pipeline.len() > 0 ==> tellable(shell, pipeline, event),
        !(event is AliasesSplit) && !(event is BuiltinPrinted)
            && !(event matches RunEventView::BuiltinExpanded { piping: false, .. })
            && !(event matches RunEventView::FunctionInspected { piping: false, .. })
            ==> tellable(shell, pipeline, event),
        event matches RunEventView::AliasesSplit(words) ==> (pipeline.len() > 0 && words.len()
            == pipeline.len() && (forall|i: int|
            0 <= i < pipeline.len() && shell.variables.aliases.contains_key(
                (#[trigger] pipeline[i]).command,
            ) ==> words[i].len() > 0 || pipeline[i].args.len() > 1) <==> tellable(
            shell,
            pipeline,
            event,
        )),
{
    if let RunEventView::AliasesSplit(words) = event {
        if words.len() == pipeline.len() {
            assert forall|i: int| 0 <= i < pipeline.len() implies (words[i].len() + tail(
                (#[trigger] pipeline[i]).args,
            ).len() > 0 <==> words[i].len() > 0 || pipeline[i].args.len() > 1) by {}
        }
    }
}

/// The arguments after the first one are one fewer, and each of them stands one place further left.
pub proof fn lemma_tail_drops_first(args: Seq<Seq<char>>)
    ensures
        args.len() == 0 ==> tail(args).len() == 0,
        args.len() > 0 ==> tail(args).len() == args.len() - 1,
        forall|k: int| 1 <= k < args.len() ==> tail(args)[k - 1] == #[trigger] args[k],
{
}

/// What is seen of a pipeline is the command and the arguments of each job, in order.
pub proof fn lemma_pipeline_is_seen(pipeline: Pipeline)
    ensures
        pipeline@.len() == pipeline.items@.len(),
        forall|i: int|
            0 <= i < pipeline@.len() ==> {
                &&& (#[trigger] pipeline@[i]).command == pipeline.items@[i].job.command@
                &&& pipeline@[i].args == pipeline.items@[i].job.args@
            },
{
}

/// What is seen of an event of a run is its kind and everything that it tells.
pub proof fn lemma_run_event_is_seen(event: RunEvent)
    ensures
        match event {
            RunEvent::Started => event@ is Started,
            RunEvent::AliasesSplit(lists) => {
                &&& event@ matches RunEventView::AliasesSplit(words)
                &&& words.len() == lists@.len()
                &&& forall|i: int|
                    0 <= i < words.len() ==> (#[trigger] words[i]).len() == lists@[i]@.len()
                &&& forall|i: int, k: int|
                    0 <= i < words.len() && 0 <= k < words[i].len() ==> #[trigger] words[i][k]
                        == lists@[i]@[k]@
            },
            RunEvent::BuiltinExpanded { builtin, piping, rendered } => event@ == (
            RunEventView::BuiltinExpanded { builtin, piping, rendered: rendered@ }),
            RunEvent::FunctionInspected { function, piping } => event@ == (
            RunEventView::FunctionInspected { function, piping }),
            RunEvent::CommandExpanded => event@ is CommandExpanded,
            RunEvent::BuiltinPrinted { builtin } => event@ == (RunEventView::BuiltinPrinted {
                builtin,
            }),
            RunEvent::Executed(code) => event@ == RunEventView::Executed(code),
            RunEvent::Called(Ok(_)) => event@ matches RunEventView::Called(Ok(_)),
            RunEvent::Called(Err(error)) => event@ matches RunEventView::Called(Err(seen)) && seen
                == error@,
            RunEvent::Reported { status } => event@ == (RunEventView::Reported { status }),
            RunEvent::Measured { status, elapsed } => event@ == (RunEventView::Measured {
                status,
                elapsed,
            }),
            RunEvent::Recorded { status, failure: Some(why) } => event@ == (
            RunEventView::Recorded { status, failure: Some(why@) }),
            RunEvent::Recorded { status, failure: None } => event@ == (RunEventView::Recorded {
                status,
                failure: None,
            }),
            RunEvent::RecordingReported { status } => event@ == (
            RunEventView::RecordingReported { status }),
        },
{
}

/// What is seen of an action of a run is its kind and everything that it asks for; lists are seen
/// item by item.
pub proof fn lemma_run_action_is_seen(action: RunAction)
    ensures
        match action {
            RunAction::SplitAliases(aliases) => {
                &&& action@ matches RunActionView::SplitAliases(asked)
                &&& asked.len() == aliases@.len()
                &&& forall|i: int|
                    0 <= i < asked.len() ==> match aliases@[i] {
                        Some(alias) => #[trigger] asked[i] == Some(alias@),
                        None => asked[i] is None,
                    }
            },
            RunAction::ExpandBuiltin(builtin) => action@ == RunActionView::ExpandBuiltin(builtin),
            RunAction::InspectFunction(function) => action@ == RunActionView::InspectFunction(
                function,
            ),
            RunAction::ExpandCommand => action@ is ExpandCommand,
            RunAction::PrintBuiltin { builtin, line } => action@ == (
            RunActionView::PrintBuiltin { builtin, line: line@ }),
            RunAction::RunBuiltin { builtin, args } => {
                &&& action@ matches RunActionView::RunBuiltin { builtin: run, args: given }
                &&& run == builtin
                &&& given.len() == args@.len()
                &&& forall|k: int| 0 <= k < given.len() ==> #[trigger] given[k] == args@[k]@
            },
            RunAction::ExecutePipeline => action@ is ExecutePipeline,
            RunAction::CallFunction { function, args } => {
                &&& action@ matches RunActionView::CallFunction { function: called, args: given }
                &&& called == function
                &&& given.len() == args@.len()
                &&& forall|k: int| 0 <= k < given.len() ==> #[trigger] given[k] == args@[k]@
            },
            RunAction::Report { line, status } => action@ == (RunActionView::Report {
                line: line@,
                status,
            }),
            RunAction::MeasureTime { status } => action@ == (RunActionView::MeasureTime { status }),
            RunAction::Record { line, status } => action@ == (RunActionView::Record {
                line: line@,
                status,
            }),
            RunAction::ReportRecording { line, status } => action@ == (
            RunActionView::ReportRecording { line: line@, status }),
            RunAction::Return(status) => action@ == RunActionView::Return(status),
        },
{
}

} // verus!
