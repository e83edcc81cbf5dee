//! How a shell runs a pipeline.
//!
//! A run is a dialogue. The caller opens it with [`RunEvent::Started`]; [`Shell::run_pipeline`]
//! answers each event with a [`RunAction`], the caller performs the action and tells its outcome in
//! the next event, until the action is [`RunAction::Return`].

use vstd::prelude::*;
use vstd::string::*;

use crate::collections::{array_collect, array_drain, array_slice, copy_range, map_get, Array};
use crate::error::{call_diagnostic, sentence, FunctionError, FunctionErrorView};
use crate::shell::{Builtin, Function, Shell, ShellView, FAILURE, NO_EXEC, PRINT_COMMS, SUCCESS};
use crate::text::{
    decimal, decimal_text, signed_decimal, signed_decimal_text, string_views, zero_padded,
    zero_padded_text,
};
use crate::variables::{lookup, optional_text};

verus! {

/// A command with its arguments, the first of which is the command itself.
pub struct Job {
    pub command: String,
    pub args: Array,
}

/// One part of a pipeline.
pub struct PipelineItem {
    pub job: Job,
}

/// Jobs that run side by side, each one reading what the one before it writes.
pub struct Pipeline {
    pub items: Vec<PipelineItem>,
}

/// What a [`Job`] holds.
#[verifier::ext_equal]
pub struct JobView {
    pub command: Seq<char>,
    pub args: Seq<Seq<char>>,
}

impl View for Job {
    type V = JobView;

    open spec fn view(&self) -> JobView {
        JobView { command: self.command@, args: self.args@ }
    }
}

impl View for Pipeline {
    type V = Seq<JobView>;

    open spec fn view(&self) -> Seq<JobView> {
        self.items@.map_values(|item: PipelineItem| item.job@)
    }
}

/// What has happened in a run.
pub enum RunEvent {
    /// The pipeline is to be run.
    Started,
    /// The aliases have been split into words: one list for each job, of which those of jobs
    /// without an alias are ignored.
    AliasesSplit(Vec<Vec<String>>),
    /// The pipeline of a built-in command has been expanded: whether it needs pipes, and its text.
    BuiltinExpanded { builtin: Builtin, piping: bool, rendered: String },
    /// It is known whether the pipeline of a function needs pipes.
    FunctionInspected { function: Function, piping: bool },
    /// The pipeline of an external command has been expanded.
    CommandExpanded,
    /// The line that shows the built-in command has been printed.
    BuiltinPrinted { builtin: Builtin },
    /// A built-in command or a whole pipeline has been executed, with this exit status.
    Executed(i32),
    /// A function has been called.
    Called(Result<(), FunctionError>),
    /// A diagnostic of the run has been printed.
    Reported { status: Option<i32> },
    /// The time since the start of the run has been taken, in seconds and nanoseconds. It is absent
    /// where the clock has been set back.
    Measured { status: Option<i32>, elapsed: Option<(u64, u32)> },
    /// The summary has been pushed to the history, or could not be for this reason.
    Recorded { status: Option<i32>, failure: Option<String> },
    /// The failure to record the summary has been printed.
    RecordingReported { status: Option<i32> },
}

/// What is to be done next in a run.
pub enum RunAction {
    /// Split the text of each alias into words. A job without an alias has no text.
    SplitAliases(Vec<Option<String>>),
    /// Expand the pipeline, which starts with a built-in command.
    ExpandBuiltin(Builtin),
    /// Find out whether the pipeline, which starts with a function, needs pipes.
    InspectFunction(Function),
    /// Expand the pipeline, which starts with an external command.
    ExpandCommand,
    /// Print a line that shows the built-in command.
    PrintBuiltin { builtin: Builtin, line: String },
    /// Run a built-in command inside the shell.
    RunBuiltin { builtin: Builtin, args: Vec<String> },
    /// Execute the pipeline with a process for each job.
    ExecutePipeline,
    /// Call a function inside the shell.
    CallFunction { function: Function, args: Vec<String> },
    /// Print a diagnostic.
    Report { line: String, status: Option<i32> },
    /// Take the time since the start of the run.
    MeasureTime { status: Option<i32> },
    /// Push a summary to the history.
    Record { line: String, status: Option<i32> },
    /// Print why the summary could not be recorded.
    ReportRecording { line: String, status: Option<i32> },
    /// End the run with the exit status of the pipeline, if it has one.
    Return(Option<i32>),
}

/// What a [`RunEvent`] tells.
#[verifier::ext_equal]
pub enum RunEventView {
    Started,
    AliasesSplit(Seq<Seq<Seq<char>>>),
    BuiltinExpanded { builtin: Builtin, piping: bool, rendered: Seq<char> },
    FunctionInspected { function: Function, piping: bool },
    CommandExpanded,
    BuiltinPrinted { builtin: Builtin },
    Executed(i32),
    Called(Result<(), FunctionErrorView>),
    Reported { status: Option<i32> },
    Measured { status: Option<i32>, elapsed: Option<(u64, u32)> },
    Recorded { status: Option<i32>, failure: Option<Seq<char>> },
    RecordingReported { status: Option<i32> },
}

/// What a [`RunAction`] asks for.
#[verifier::ext_equal]
pub enum RunActionView {
    SplitAliases(Seq<Option<Seq<char>>>),
    ExpandBuiltin(Builtin),
    InspectFunction(Function),
    ExpandCommand,
    PrintBuiltin { builtin: Builtin, line: Seq<char> },
    RunBuiltin { builtin: Builtin, args: Seq<Seq<char>> },
    ExecutePipeline,
    CallFunction { function: Function, args: Seq<Seq<char>> },
    Report { line: Seq<char>, status: Option<i32> },
    MeasureTime { status: Option<i32> },
    Record { line: Seq<char>, status: Option<i32> },
    ReportRecording { line: Seq<char>, status: Option<i32> },
    Return(Option<i32>),
}

/// The words of several lists of strings.
pub open spec fn word_lists(lists: Seq<Vec<String>>) -> Seq<Seq<Seq<char>>> {
    lists.map_values(|list: Vec<String>| string_views(list@))
}

/// The texts of several optional strings.
pub open spec fn optional_texts(values: Seq<Option<String>>) -> Seq<Option<Seq<char>>> {
    values.map_values(|value: Option<String>| optional_text(value))
}

impl View for RunEvent {
    type V = RunEventView;

    open spec fn view(&self) -> RunEventView {
        match *self {
            RunEvent::Started => RunEventView::Started,
            RunEvent::AliasesSplit(words) => RunEventView::AliasesSplit(word_lists(words@)),
            RunEvent::BuiltinExpanded { builtin, piping, rendered } =>
                RunEventView::BuiltinExpanded { builtin, piping, rendered: rendered@ },
            RunEvent::FunctionInspected { function, piping } => RunEventView::FunctionInspected {
                function,
                piping,
            },
            RunEvent::CommandExpanded => RunEventView::CommandExpanded,
            RunEvent::BuiltinPrinted { builtin } => RunEventView::BuiltinPrinted { builtin },
            RunEvent::Executed(status) => RunEventView::Executed(status),
            RunEvent::Called(Ok(())) => RunEventView::Called(Ok(())),
            RunEvent::Called(Err(error)) => RunEventView::Called(Err(error@)),
            RunEvent::Reported { status } => RunEventView::Reported { status },
            RunEvent::Measured { status, elapsed } => RunEventView::Measured { status, elapsed },
            RunEvent::Recorded { status, failure } => RunEventView::Recorded {
                status,
                failure: optional_text(failure),
            },
            RunEvent::RecordingReported { status } => RunEventView::RecordingReported { status },
        }
    }
}

impl View for RunAction {
    type V = RunActionView;

    open spec fn view(&self) -> RunActionView {
        match *self {
            RunAction::SplitAliases(aliases) => RunActionView::SplitAliases(
                optional_texts(aliases@),
            ),
            RunAction::ExpandBuiltin(builtin) => RunActionView::ExpandBuiltin(builtin),
            RunAction::InspectFunction(function) => RunActionView::InspectFunction(function),
            RunAction::ExpandCommand => RunActionView::ExpandCommand,
            RunAction::PrintBuiltin { builtin, line } => RunActionView::PrintBuiltin {
                builtin,
                line: line@,
            },
            RunAction::RunBuiltin { builtin, args } => RunActionView::RunBuiltin {
                builtin,
                args: string_views(args@),
            },
            RunAction::ExecutePipeline => RunActionView::ExecutePipeline,
            RunAction::CallFunction { function, args } => RunActionView::CallFunction {
                function,
                args: string_views(args@),
            },
            RunAction::Report { line, status } => RunActionView::Report { line: line@, status },
            RunAction::MeasureTime { status } => RunActionView::MeasureTime { status },
            RunAction::Record { line, status } => RunActionView::Record { line: line@, status },
            RunAction::ReportRecording { line, status } => RunActionView::ReportRecording {
                line: line@,
                status,
            },
            RunAction::Return(status) => RunActionView::Return(status),
        }
    }
}

/// The text of the alias of each job.
pub open spec fn alias_values(shell: ShellView, pipeline: Seq<JobView>) -> Seq<
    Option<Seq<char>>,
> {
    pipeline.map_values(|job: JobView| lookup(shell.variables.aliases, job.command))
}

/// The arguments after the first one.
pub open spec fn tail(args: Seq<Seq<char>>) -> Seq<Seq<char>> {
    if args.len() == 0 {
        args
    } else {
        args.skip(1)
    }
}

/// A job whose command has been replaced by the words of its alias.
pub open spec fn with_words(job: JobView, words: Seq<Seq<char>>) -> JobView {
    let args = words + tail(job.args);
    JobView { command: args[0], args }
}

/// A job after the expansion of its alias, if it has one.
pub open spec fn expanded_job(shell: ShellView, job: JobView, words: Seq<Seq<char>>) -> JobView {
    if shell.variables.aliases.contains_key(job.command) {
        with_words(job, words)
    } else {
        job
    }
}

/// A pipeline after the expansion of the aliases.
pub open spec fn expanded(
    shell: ShellView,
    pipeline: Seq<JobView>,
    words: Seq<Seq<Seq<char>>>,
) -> Seq<JobView> {
    Seq::new(pipeline.len(), |i: int| expanded_job(shell, pipeline[i], words[i]))
}

/// Whether the words fit the pipeline: there is a list for each job, and every job with an alias
/// keeps at least one argument, from which it takes its command.
pub open spec fn words_fit(
    shell: ShellView,
    pipeline: Seq<JobView>,
    words: Seq<Seq<Seq<char>>>,
) -> bool {
    &&& words.len() == pipeline.len()
    &&& forall|i: int|
        0 <= i < pipeline.len() && shell.variables.aliases.contains_key(
            (#[trigger] pipeline[i]).command,
        ) ==> words[i].len() + tail(pipeline[i].args).len() > 0
}

/// How a pipeline goes on that starts with the given command.
pub open spec fn dispatched(shell: ShellView, command: Seq<char>) -> RunActionView {
    if shell.builtins.contains_key(command) {
        RunActionView::ExpandBuiltin(shell.builtins[command])
    } else if shell.functions.contains_key(command) {
        RunActionView::InspectFunction(shell.functions[command])
    } else {
        RunActionView::ExpandCommand
    }
}

/// Whether a flag of the shell is set.
pub open spec fn flag_set(shell: ShellView, flag: u8) -> bool {
    shell.flags & flag != 0
}

/// Whether the shell records a summary of each pipeline.
pub open spec fn records_summary(shell: ShellView) -> bool {
    shell.has_context && shell.variables.string_or_empty("RECORD_SUMMARY"@) == "1"@
}

/// The summary of a pipeline that took the given time.
pub open spec fn summary(seconds: u64, nanoseconds: u32) -> Seq<char> {
    "#summary# elapsed real time: "@ + decimal(seconds as nat) + "."@ + zero_padded(
        nanoseconds as nat,
        9,
    ) + " seconds"@
}

/// The shell at the end of a run: the exit status, if there is one, becomes the previous status and
/// the value of the variable `?`.
pub open spec fn finished(shell: ShellView, status: Option<i32>) -> ShellView {
    match status {
        Some(code) => ShellView {
            previous_status: code,
            ..shell.with_string("?"@, signed_decimal(code as int))
        },
        None => shell,
    }
}

/// The last step of a run.
pub open spec fn returned(shell: ShellView, status: Option<i32>) -> (ShellView, RunActionView) {
    (finished(shell, status), RunActionView::Return(status))
}

/// The step after the execution of the pipeline.
pub open spec fn concluded(shell: ShellView, status: Option<i32>) -> (ShellView, RunActionView) {
    if records_summary(shell) {
        (shell, RunActionView::MeasureTime { status })
    } else {
        returned(shell, status)
    }
}

/// The step that runs a built-in command without pipes, unless the shell executes nothing.
pub open spec fn builtin_started(shell: ShellView, pipeline: Seq<JobView>, builtin: Builtin) -> (
    ShellView,
    RunActionView,
) {
    if flag_set(shell, NO_EXEC) {
        concluded(shell, Some(SUCCESS))
    } else {
        (shell, RunActionView::RunBuiltin { builtin, args: pipeline[0].args })
    }
}

/// The pipeline after an event.
pub open spec fn next_pipeline(
    shell: ShellView,
    pipeline: Seq<JobView>,
    event: RunEventView,
) -> Seq<JobView> {
    match event {
        RunEventView::AliasesSplit(words) => expanded(shell, pipeline, words),
        _ => pipeline,
    }
}

/// The shell after an event, and the action that answers it.
pub open spec fn next_step(shell: ShellView, pipeline: Seq<JobView>, event: RunEventView) -> (
    ShellView,
    RunActionView,
) {
    match event {
        RunEventView::Started => (
            shell,
            RunActionView::SplitAliases(alias_values(shell, pipeline)),
        ),
        RunEventView::AliasesSplit(words) => (
            shell,
            dispatched(shell, expanded(shell, pipeline, words)[0].command),
        ),
        RunEventView::BuiltinExpanded { builtin, piping, rendered } => if piping {
            (shell, RunActionView::ExecutePipeline)
        } else if flag_set(shell, PRINT_COMMS) {
            (shell, RunActionView::PrintBuiltin { builtin, line: "> "@ + rendered })
        } else {
            builtin_started(shell, pipeline, builtin)
        },
        RunEventView::BuiltinPrinted { builtin } => builtin_started(shell, pipeline, builtin),
        RunEventView::FunctionInspected { function, piping } => if piping {
            (shell, RunActionView::ExecutePipeline)
        } else {
            (shell, RunActionView::CallFunction { function, args: pipeline[0].args })
        },
        RunEventView::CommandExpanded => (shell, RunActionView::ExecutePipeline),
        RunEventView::Executed(code) => concluded(shell, Some(code)),
        RunEventView::Called(Ok(())) => concluded(shell, None),
        RunEventView::Called(Err(error)) => (
            shell,
            RunActionView::Report { line: call_diagnostic(error), status: Some(FAILURE) },
        ),
        RunEventView::Reported { status } => concluded(shell, status),
        RunEventView::Measured { status, elapsed: Some((seconds, nanoseconds)) } => (
            shell,
            RunActionView::Record { line: summary(seconds, nanoseconds), status },
        ),
        RunEventView::Measured { status, elapsed: None } => returned(shell, status),
        RunEventView::Recorded { status, failure: Some(why) } => (
            shell,
            RunActionView::ReportRecording { line: "ion: "@ + why + "\n"@, status },
        ),
        RunEventView::Recorded { status, failure: None } => returned(shell, status),
        RunEventView::RecordingReported { status } => returned(shell, status),
    }
}

/// Whether an event can be told of a pipeline: where the shell goes on to look at the first job
/// there is one, and the words of the aliases fit the jobs.
pub open spec fn tellable(shell: ShellView, pipeline: Seq<JobView>, event: RunEventView) -> bool {
    match event {
        RunEventView::AliasesSplit(words) => pipeline.len() > 0 && words_fit(
            shell,
            pipeline,
            words,
        ),
        RunEventView::BuiltinExpanded { piping, .. } => piping || pipeline.len() > 0,
        RunEventView::BuiltinPrinted { .. } => pipeline.len() > 0,
        RunEventView::FunctionInspected { piping, .. } => piping || pipeline.len() > 0,
        _ => true,
    }
}

/// The summary of a pipeline that took the given time.
pub fn summary_line(seconds: u64, nanoseconds: u32) -> (line: String)
    ensures
        line@ == summary(seconds, nanoseconds),
{
    let whole = decimal_text(seconds);
    let fraction = zero_padded_text(nanoseconds as u64, 9);
    let start = sentence("#summary# elapsed real time: ", whole.as_str(), ".");
    sentence(start.as_str(), fraction.as_str(), " seconds")
}

impl Shell {
    /// The text of the alias of each job.
    fn aliases_of(&self, pipeline: &Pipeline) -> (aliases: Vec<Option<String>>)
        ensures
            optional_texts(aliases@) == alias_values(self@, pipeline@),
    {
        let mut aliases: Vec<Option<String>> = Vec::new();
        for i in 0..pipeline.items.len()
            invariant
                optional_texts(aliases@) =~= alias_values(self@, pipeline@.take(i as int)),
        {
            let ghost before = aliases@;
            let alias = self.variables.get_alias(pipeline.items[i].job.command.as_str());
            aliases.push(alias);
            assert(pipeline@[i as int] == pipeline.items@[i as int].job@);
            assert(optional_texts(aliases@) =~= optional_texts(before).push(optional_text(alias)));
        }
        assert(pipeline@.take(pipeline@.len() as int) =~= pipeline@);
        aliases
    }

    /// Replaces the command of each job that has an alias by the words of the alias.
    fn expand_aliases(&self, pipeline: &mut Pipeline, words: &Vec<Vec<String>>)
        requires
            words_fit(self@, old(pipeline)@, word_lists(words@)),
        ensures
            final(pipeline)@ == expanded(self@, old(pipeline)@, word_lists(words@)),
    {
        let ghost start = pipeline@;
        let ghost lists = word_lists(words@);
        let count: usize = pipeline.items.len();
        for i in 0..count
            invariant
                words_fit(self@, start, lists),
                lists == word_lists(words@),
                count == start.len(),
                pipeline.items@.len() == count,
                pipeline@ =~= expanded(self@, start.take(i as int), lists) + start.skip(i as int),
        {
            let ghost job = pipeline@[i as int];
            assert(job == start[i as int]);
            assert(job == pipeline.items@[i as int].job@);
            let aliased = self.variables.get_alias(pipeline.items[i].job.command.as_str()).is_some();
            let ghost before = pipeline@;
            if aliased {
                assert(start[i as int].command == job.command);
                assert(lists[i as int] == string_views(words@[i as int]@));
                replace_command(&mut pipeline.items[i].job, &words[i]);
            }
            assert(pipeline@ =~= before.update(
                i as int,
                expanded_job(self@, start[i as int], lists[i as int]),
            ));
        }
    }
}

impl Shell {
    /// How a pipeline goes on that starts with the given command.
    fn dispatch(&self, command: &str) -> (action: RunAction)
        ensures
            action@ == dispatched(self@, command@),
    {
        match map_get(&self.builtins, command) {
            Some(builtin) => RunAction::ExpandBuiltin(*builtin),
            None => match map_get(&self.functions, command) {
                Some(function) => RunAction::InspectFunction(*function),
                None => RunAction::ExpandCommand,
            },
        }
    }

    /// Ends a run.
    fn finish(&mut self, status: Option<i32>) -> (action: RunAction)
        ensures
            (final(self)@, action@) == returned(old(self)@, status),
    {
        if let Some(code) = status {
            let text = signed_decimal_text(code);
            self.set_var("?", text.as_str());
            self.previous_status = code;
        }
        RunAction::Return(status)
    }

    /// Goes on after the execution of a pipeline.
    fn conclude(&mut self, status: Option<i32>) -> (action: RunAction)
        ensures
            (final(self)@, action@) == concluded(old(self)@, status),
    {
        if self.has_context && self.get_var_or_empty("RECORD_SUMMARY") == "1".to_owned() {
            RunAction::MeasureTime { status }
        } else {
            self.finish(status)
        }
    }

    /// Runs a built-in command without pipes, unless the shell executes nothing.
    fn start_builtin(&mut self, pipeline: &Pipeline, builtin: Builtin) -> (action: RunAction)
        requires
            pipeline@.len() > 0,
        ensures
            (final(self)@, action@) == builtin_started(old(self)@, pipeline@, builtin),
    {
        if self.flags & NO_EXEC != 0 {
            self.conclude(Some(SUCCESS))
        } else {
            RunAction::RunBuiltin { builtin, args: arguments(pipeline) }
        }
    }

    /// Takes one step in the run of a pipeline: answers an event with the action that follows.
    ///
    /// The aliases of all jobs are expanded once. Then a built-in command or a function that needs
    /// no pipes is run inside the shell, and any other pipeline with a process for each job. An
    /// interactive shell whose variable `RECORD_SUMMARY` is `1` records how long that took. The
    /// exit status, if there is one, becomes the previous status and the value of the variable `?`,
    /// whatever the execution has left of the pipeline.
    pub fn run_pipeline(&mut self, pipeline: &mut Pipeline, event: RunEvent) -> (action: RunAction)
        requires
            tellable(old(self)@, old(pipeline)@, event@),
        ensures
            (final(self)@, action@) == next_step(old(self)@, old(pipeline)@, event@),
            final(pipeline)@ == next_pipeline(old(self)@, old(pipeline)@, event@),
    {
        match event {
            RunEvent::Started => RunAction::SplitAliases(self.aliases_of(pipeline)),
            RunEvent::AliasesSplit(words) => {
                self.expand_aliases(pipeline, &words);
                assert(pipeline@.len() == old(pipeline)@.len());
                assert(pipeline.items@.len() == pipeline@.len());
                assert(pipeline@[0] == pipeline.items@[0].job@);
                self.dispatch(pipeline.items[0].job.command.as_str())
            },
            RunEvent::BuiltinExpanded { builtin, piping, rendered } => if piping {
                RunAction::ExecutePipeline
            } else if self.flags & PRINT_COMMS != 0 {
                let line = "> ".to_owned().concat(rendered.as_str());
                RunAction::PrintBuiltin { builtin, line }
            } else {
                self.start_builtin(pipeline, builtin)
            },
            RunEvent::BuiltinPrinted { builtin } => self.start_builtin(pipeline, builtin),
            RunEvent::FunctionInspected { function, piping } => if piping {
                RunAction::ExecutePipeline
            } else {
                RunAction::CallFunction { function, args: arguments(pipeline) }
            },
            RunEvent::CommandExpanded => RunAction::ExecutePipeline,
            RunEvent::Executed(code) => self.conclude(Some(code)),
            RunEvent::Called(Ok(())) => self.conclude(None),
            RunEvent::Called(Err(error)) => RunAction::Report {
                line: error.diagnostic(),
                status: Some(FAILURE),
            },
            RunEvent::Reported { status } => self.conclude(status),
            RunEvent::Measured { status, elapsed } => match elapsed {
                Some((seconds, nanoseconds)) => RunAction::Record {
                    line: summary_line(seconds, nanoseconds),
                    status,
                },
                None => self.finish(status),
            },
            RunEvent::Recorded { status, failure } => match failure {
                Some(why) => RunAction::ReportRecording {
                    line: sentence("ion: ", why.as_str(), "\n"),
                    status,
                },
                None => self.finish(status),
            },
            RunEvent::RecordingReported { status } => self.finish(status),
        }
    }
}

/// Copies of the arguments of the first job.
fn arguments(pipeline: &Pipeline) -> (args: Vec<String>)
    requires
        pipeline@.len() > 0,
    ensures
        string_views(args@) == pipeline@[0].args,
{
    let items = array_slice(&pipeline.items[0].job.args);
    let args = copy_range(items, 0, items.len());
    assert(string_views(args@) =~= string_views(items@));
    assert(pipeline@[0] == pipeline.items@[0].job@);
    args
}

/// Replaces the command of a job by the words of its alias.
fn replace_command(job: &mut Job, words: &Vec<String>)
    requires
        string_views(words@).len() + tail(old(job)@.args).len() > 0,
    ensures
        final(job)@ == with_words(old(job)@, string_views(words@)),
{
    let mut args = copy_range(words.as_slice(), 0, words.len());
    assert(string_views(args@) =~= string_views(words@));
    let rest = array_drain(&mut job.args);
    append_tail(&mut args, &rest);
    let ghost all = string_views(args@);
    assert(all.len() == args@.len());
    assert(all[0] == args@[0]@);
    job.command = args[0].clone();
    job.args = array_collect(args);
}

/// Appends copies of the arguments after the first one.
fn append_tail(args: &mut Vec<String>, rest: &Vec<String>)
    ensures
        string_views(final(args)@) == string_views(old(args)@) + tail(string_views(rest@)),
{
    let ghost start = string_views(args@);
    let count: usize = rest.len();
    assert(start + Seq::<Seq<char>>::empty() =~= start);
    let mut i: usize = 1;
    while i < count
        invariant
            count == rest@.len(),
            1 <= i,
            i <= count || count == 0 && i == 1,
            count > 0 ==> string_views(args@) =~= start + string_views(rest@).subrange(1, i as int),
            count == 0 ==> string_views(args@) == start,
        decreases count - i,
    {
        let ghost before = args@;
        args.push(rest[i].clone());
        assert(string_views(args@) =~= string_views(before).push(rest@[i as int]@));
        i = i + 1;
    }
    assert(string_views(args@) =~= start + tail(string_views(rest@)));
}

} // verus!
