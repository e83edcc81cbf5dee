use fnv::FnvHashMap;
use ion_shell::collections::Array;
use ion_shell::execute::{CommandAction, CommandEvent, FunctionAction, FunctionEvent};
use ion_shell::process::{ForkAction, ForkEvent};
use ion_shell::run::{summary_line, Job, Pipeline, PipelineItem, RunAction, RunEvent};
use ion_shell::shell::{Builtin, Function, FAILURE, NO_EXEC, PRINT_COMMS, SUCCESS};
use ion_shell::{FunctionError, Shell, Variables};

const ECHO: Builtin = Builtin { id: 1 };
const GREET: Function = Function { id: 2 };

fn strings(items: &[&str]) -> Vec<String> {
    items.iter().map(|item| item.to_string()).collect()
}

fn pipeline(jobs: &[&[&str]]) -> Pipeline {
    Pipeline {
        items: jobs
            .iter()
            .map(|args| PipelineItem {
                job: Job {
                    command: args[0].to_owned(),
                    args: Array::from_strings(strings(args)),
                },
            })
            .collect(),
    }
}

fn shell() -> Shell {
    let mut builtins = FnvHashMap::default();
    builtins.insert("echo".to_owned(), ECHO);
    let mut shell = Shell::new_bin(builtins, Variables::default());
    shell.functions.insert("greet".to_owned(), GREET);
    shell.functions.insert("echo".to_owned(), Function { id: 9 });
    shell
}

#[test]
fn aliases_are_expanded_once() {
    let mut shell = shell();
    shell.variables.aliases.insert("ls".to_owned(), "ls --color".to_owned());
    shell.variables.aliases.insert("g".to_owned(), "grep -n".to_owned());
    let mut pipeline = pipeline(&[&["ls", "-l", "dir"], &["cat"], &["g", "ls"]]);
    match shell.run_pipeline(&mut pipeline, RunEvent::Started) {
        RunAction::SplitAliases(aliases) => assert_eq!(
            aliases,
            vec![Some("ls --color".to_owned()), None, Some("grep -n".to_owned())]
        ),
        _ => panic!("the aliases"),
    }
    let words = vec![strings(&["ls", "--color"]), Vec::new(), strings(&["grep", "-n"])];
    let action = shell.run_pipeline(&mut pipeline, RunEvent::AliasesSplit(words));
    assert!(matches!(action, RunAction::ExpandCommand));
    assert_eq!(pipeline.items.len(), 3);
    assert_eq!(pipeline.items[0].job.command, "ls");
    assert_eq!(
        pipeline.items[0].job.args.as_slice(),
        &strings(&["ls", "--color", "-l", "dir"])[..]
    );
    assert_eq!(pipeline.items[1].job.command, "cat");
    assert_eq!(pipeline.items[1].job.args.as_slice(), &strings(&["cat"])[..]);
    assert_eq!(pipeline.items[2].job.command, "grep");
    assert_eq!(pipeline.items[2].job.args.as_slice(), &strings(&["grep", "-n", "ls"])[..]);
}

#[test]
fn alias_without_words_takes_the_next_argument() {
    let mut shell = shell();
    shell.variables.aliases.insert("nothing".to_owned(), String::new());
    let mut pipeline = pipeline(&[&["nothing", "echo", "a"]]);
    let action = shell.run_pipeline(&mut pipeline, RunEvent::AliasesSplit(vec![Vec::new()]));
    assert!(matches!(action, RunAction::ExpandBuiltin(ECHO)));
    assert_eq!(pipeline.items[0].job.command, "echo");
    assert_eq!(pipeline.items[0].job.args.as_slice(), &strings(&["echo", "a"])[..]);
}

#[test]
fn alias_may_lead_to_a_builtin_or_a_function() {
    let mut shell = shell();
    shell.variables.aliases.insert("e".to_owned(), "echo".to_owned());
    shell.variables.aliases.insert("hi".to_owned(), "greet".to_owned());
    let mut first = pipeline(&[&["e", "a"]]);
    let action = shell.run_pipeline(&mut first, RunEvent::AliasesSplit(vec![strings(&["echo"])]));
    assert!(matches!(action, RunAction::ExpandBuiltin(ECHO)));
    let mut second = pipeline(&[&["hi"]]);
    let action = shell.run_pipeline(&mut second, RunEvent::AliasesSplit(vec![strings(&["greet"])]));
    assert!(matches!(action, RunAction::InspectFunction(GREET)));
}

#[test]
fn builtin_stands_before_function() {
    let mut shell = shell();
    let mut pipeline = pipeline(&[&["echo"]]);
    let action = shell.run_pipeline(&mut pipeline, RunEvent::AliasesSplit(vec![Vec::new()]));
    assert!(matches!(action, RunAction::ExpandBuiltin(ECHO)));
}

#[test]
fn builtin_runs_inside_the_shell() {
    let mut shell = shell();
    let mut pipeline = pipeline(&[&["echo", "a", "b"]]);
    let event =
        RunEvent::BuiltinExpanded { builtin: ECHO, piping: false, rendered: "echo a b".to_owned() };
    match shell.run_pipeline(&mut pipeline, event) {
        RunAction::RunBuiltin { builtin, args } => {
            assert_eq!(builtin, ECHO);
            assert_eq!(args, strings(&["echo", "a", "b"]));
        }
        _ => panic!("the built-in command"),
    }
    let action = shell.run_pipeline(&mut pipeline, RunEvent::Executed(3));
    assert!(matches!(action, RunAction::Return(Some(3))));
    assert_eq!(shell.previous_status, 3);
    assert_eq!(shell.get_var("?"), Some("3".to_owned()));
}

#[test]
fn piped_builtin_runs_as_a_pipeline() {
    let mut shell = shell();
    shell.flags = PRINT_COMMS | NO_EXEC;
    let mut pipeline = pipeline(&[&["echo"], &["cat"]]);
    let event = RunEvent::BuiltinExpanded { builtin: ECHO, piping: true, rendered: String::new() };
    let action = shell.run_pipeline(&mut pipeline, event);
    assert!(matches!(action, RunAction::ExecutePipeline));
}

#[test]
fn commands_are_printed_on_request() {
    let mut shell = shell();
    shell.flags = PRINT_COMMS;
    let mut pipeline = pipeline(&[&["echo", "a"]]);
    let event =
        RunEvent::BuiltinExpanded { builtin: ECHO, piping: false, rendered: "echo a".to_owned() };
    match shell.run_pipeline(&mut pipeline, event) {
        RunAction::PrintBuiltin { builtin, line } => {
            assert_eq!(builtin, ECHO);
            assert_eq!(line, "> echo a");
        }
        _ => panic!("the line"),
    }
    let action = shell.run_pipeline(&mut pipeline, RunEvent::BuiltinPrinted { builtin: ECHO });
    assert!(matches!(action, RunAction::RunBuiltin { .. }));
}

#[test]
fn no_exec_runs_no_builtin() {
    let mut shell = shell();
    shell.previous_status = 5;
    shell.flags = PRINT_COMMS | NO_EXEC;
    let mut pipeline = pipeline(&[&["echo"]]);
    let event =
        RunEvent::BuiltinExpanded { builtin: ECHO, piping: false, rendered: "echo".to_owned() };
    let action = shell.run_pipeline(&mut pipeline, event);
    assert!(matches!(action, RunAction::PrintBuiltin { .. }));
    let action = shell.run_pipeline(&mut pipeline, RunEvent::BuiltinPrinted { builtin: ECHO });
    assert!(matches!(action, RunAction::Return(Some(SUCCESS))));
    assert_eq!(shell.previous_status, SUCCESS);
}

#[test]
fn function_is_called_inside_the_shell() {
    let mut shell = shell();
    shell.previous_status = 8;
    let mut pipeline = pipeline(&[&["greet", "you"]]);
    let event = RunEvent::FunctionInspected { function: GREET, piping: false };
    match shell.run_pipeline(&mut pipeline, event) {
        RunAction::CallFunction { function, args } => {
            assert_eq!(function, GREET);
            assert_eq!(args, strings(&["greet", "you"]));
        }
        _ => panic!("the function"),
    }
    let action = shell.run_pipeline(&mut pipeline, RunEvent::Called(Ok(())));
    assert!(matches!(action, RunAction::Return(None)));
    assert_eq!(shell.previous_status, 8);
    assert_eq!(shell.get_var("?"), None);
    let event = RunEvent::FunctionInspected { function: GREET, piping: true };
    assert!(matches!(shell.run_pipeline(&mut pipeline, event), RunAction::ExecutePipeline));
}

#[test]
fn failed_call_is_reported() {
    let mut shell = shell();
    let mut pipeline = pipeline(&[&["greet"]]);
    let count = RunEvent::Called(Err(FunctionError::InvalidArgumentCount));
    match shell.run_pipeline(&mut pipeline, count) {
        RunAction::Report { line, status } => {
            assert_eq!(line, "ion: invalid number of function arguments supplied");
            assert_eq!(status, Some(FAILURE));
        }
        _ => panic!("the report"),
    }
    let error = FunctionError::InvalidArgumentType("int".to_owned(), "one".to_owned());
    match shell.run_pipeline(&mut pipeline, RunEvent::Called(Err(error))) {
        RunAction::Report { line, status } => {
            assert_eq!(
                line,
                "ion: function argument has invalid type: expected int, found value 'one'"
            );
            assert_eq!(status, Some(FAILURE));
        }
        _ => panic!("the report"),
    }
    let action = shell.run_pipeline(&mut pipeline, RunEvent::Reported { status: Some(FAILURE) });
    assert!(matches!(action, RunAction::Return(Some(FAILURE))));
    assert_eq!(shell.previous_status, FAILURE);
    assert_eq!(shell.get_var("?"), Some("1".to_owned()));
}

#[test]
fn external_command_is_executed() {
    let mut shell = shell();
    let mut pipeline = pipeline(&[&["make"]]);
    let action = shell.run_pipeline(&mut pipeline, RunEvent::CommandExpanded);
    assert!(matches!(action, RunAction::ExecutePipeline));
    let action = shell.run_pipeline(&mut pipeline, RunEvent::Executed(-1));
    assert!(matches!(action, RunAction::Return(Some(-1))));
    assert_eq!(shell.get_var("?"), Some("-1".to_owned()));
}

#[test]
fn summary_is_recorded_on_request() {
    let mut shell = shell();
    let mut pipeline = pipeline(&[&["make"]]);
    shell.set_var("RECORD_SUMMARY", "1");
    let action = shell.run_pipeline(&mut pipeline, RunEvent::Executed(0));
    assert!(matches!(action, RunAction::Return(Some(0))));
    shell.has_context = true;
    shell.set_var("RECORD_SUMMARY", "yes");
    let action = shell.run_pipeline(&mut pipeline, RunEvent::Executed(0));
    assert!(matches!(action, RunAction::Return(Some(0))));
    shell.set_var("RECORD_SUMMARY", "1");
    let action = shell.run_pipeline(&mut pipeline, RunEvent::Executed(4));
    assert!(matches!(action, RunAction::MeasureTime { status: Some(4) }));
    assert_eq!(shell.previous_status, 0);
    let event = RunEvent::Measured { status: Some(4), elapsed: Some((12, 3_400_000)) };
    match shell.run_pipeline(&mut pipeline, event) {
        RunAction::Record { line, status } => {
            assert_eq!(line, "#summary# elapsed real time: 12.003400000 seconds");
            assert_eq!(status, Some(4));
        }
        _ => panic!("the summary"),
    }
    let event = RunEvent::Recorded { status: Some(4), failure: Some("disk full".to_owned()) };
    match shell.run_pipeline(&mut pipeline, event) {
        RunAction::ReportRecording { line, status } => {
            assert_eq!(line, "ion: disk full\n");
            assert_eq!(status, Some(4));
        }
        _ => panic!("the report"),
    }
    let event = RunEvent::RecordingReported { status: Some(4) };
    assert!(matches!(shell.run_pipeline(&mut pipeline, event), RunAction::Return(Some(4))));
    assert_eq!(shell.previous_status, 4);
    let event = RunEvent::Recorded { status: None, failure: None };
    assert!(matches!(shell.run_pipeline(&mut pipeline, event), RunAction::Return(None)));
    let event = RunEvent::Measured { status: Some(6), elapsed: None };
    assert!(matches!(shell.run_pipeline(&mut pipeline, event), RunAction::Return(Some(6))));
    assert_eq!(shell.previous_status, 6);
}

#[test]
fn summary_shows_nanoseconds_with_nine_digits() {
    assert_eq!(summary_line(0, 0), "#summary# elapsed real time: 0.000000000 seconds");
    assert_eq!(summary_line(1, 999_999_999), "#summary# elapsed real time: 1.999999999 seconds");
    assert_eq!(summary_line(60, 42), "#summary# elapsed real time: 60.000000042 seconds");
}

#[test]
fn whole_run_executes_once_and_sets_the_status() {
    let mut shell = shell();
    shell.has_context = true;
    shell.set_var("RECORD_SUMMARY", "1");
    shell.variables.aliases.insert("e".to_owned(), "echo".to_owned());
    shell.flags = PRINT_COMMS;
    let mut pipeline = pipeline(&[&["e", "a"]]);
    let mut event = RunEvent::Started;
    let mut steps = 0;
    let mut executions = 0;
    let status = loop {
        steps += 1;
        event = match shell.run_pipeline(&mut pipeline, event) {
            RunAction::SplitAliases(aliases) => RunEvent::AliasesSplit(
                aliases
                    .iter()
                    .map(|alias| match alias {
                        Some(text) => text.split(' ').map(|word| word.to_owned()).collect(),
                        None => Vec::new(),
                    })
                    .collect(),
            ),
            RunAction::ExpandBuiltin(builtin) => RunEvent::BuiltinExpanded {
                builtin,
                piping: false,
                rendered: "echo a".to_owned(),
            },
            RunAction::PrintBuiltin { builtin, .. } => RunEvent::BuiltinPrinted { builtin },
            RunAction::RunBuiltin { args, .. } => {
                executions += 1;
                assert_eq!(args, strings(&["echo", "a"]));
                RunEvent::Executed(11)
            }
            RunAction::MeasureTime { status } => {
                RunEvent::Measured { status, elapsed: Some((1, 1)) }
            }
            RunAction::Record { status, .. } => {
                RunEvent::Recorded { status, failure: Some("full".to_owned()) }
            }
            RunAction::ReportRecording { status, .. } => RunEvent::RecordingReported { status },
            RunAction::Return(status) => break status,
            _ => panic!("an action of a built-in command"),
        };
    };
    assert_eq!(steps, 8);
    assert_eq!(executions, 1);
    assert_eq!(status, Some(11));
    assert_eq!(shell.previous_status, 11);
    assert_eq!(shell.get_var("?"), Some("11".to_owned()));
}

#[test]
fn status_of_the_last_pipeline_reaches_every_caller() {
    let mut shell = shell();
    let mut pipeline = pipeline(&[&["make"]]);
    let action = shell.run_pipeline(&mut pipeline, RunEvent::Executed(23));
    assert!(matches!(action, RunAction::Return(Some(23))));
    assert!(matches!(
        shell.execute_command(CommandEvent::Executed),
        CommandAction::Return(Ok(23))
    ));
    assert!(matches!(
        shell.execute_function(FunctionEvent::Called(Ok(()))),
        FunctionAction::Return(Ok(23))
    ));
    assert!(matches!(shell.fork(ForkEvent::ChildDone), ForkAction::ExitChild(23)));
}

#[test]
fn skipped_builtin_is_summarised_and_ends_with_success() {
    let mut shell = shell();
    shell.flags = NO_EXEC;
    shell.has_context = true;
    shell.set_var("RECORD_SUMMARY", "1");
    let mut pipeline = pipeline(&[&["echo"]]);
    let event =
        RunEvent::BuiltinExpanded { builtin: ECHO, piping: false, rendered: String::new() };
    let action = shell.run_pipeline(&mut pipeline, event);
    assert!(matches!(action, RunAction::MeasureTime { status: Some(SUCCESS) }));
    let event = RunEvent::Measured { status: Some(SUCCESS), elapsed: Some((0, 5)) };
    match shell.run_pipeline(&mut pipeline, event) {
        RunAction::Record { line, .. } => {
            assert_eq!(line, "#summary# elapsed real time: 0.000000005 seconds")
        }
        _ => panic!("the summary"),
    }
    let event = RunEvent::Recorded { status: Some(SUCCESS), failure: None };
    assert!(matches!(shell.run_pipeline(&mut pipeline, event), RunAction::Return(Some(SUCCESS))));
}

#[test]
fn execution_may_use_the_pipeline_up() {
    let mut shell = shell();
    shell.has_context = true;
    shell.set_var("RECORD_SUMMARY", "1");
    let mut pipeline = pipeline(&[&["make"], &["cat"]]);
    let mut recorded: Vec<String> = Vec::new();
    let mut event = RunEvent::Started;
    let status = loop {
        event = match shell.run_pipeline(&mut pipeline, event) {
            RunAction::SplitAliases(aliases) => {
                RunEvent::AliasesSplit(aliases.iter().map(|_| Vec::new()).collect())
            }
            RunAction::ExpandCommand => RunEvent::CommandExpanded,
            RunAction::ExecutePipeline => {
                pipeline.items.clear();
                RunEvent::Executed(7)
            }
            RunAction::MeasureTime { status } => {
                RunEvent::Measured { status, elapsed: Some((2, 30)) }
            }
            RunAction::Record { line, status } => {
                recorded.push(line);
                RunEvent::Recorded { status, failure: Some("full".to_owned()) }
            }
            RunAction::ReportRecording { status, .. } => RunEvent::RecordingReported { status },
            RunAction::Return(status) => break status,
            _ => panic!("an action of an external command"),
        };
    };
    assert_eq!(status, Some(7));
    assert_eq!(shell.previous_status, 7);
    assert_eq!(shell.get_var("?"), Some("7".to_owned()));
    assert_eq!(recorded, vec!["#summary# elapsed real time: 2.000000030 seconds"]);
}

#[test]
fn outcomes_are_told_of_an_emptied_pipeline() {
    let mut shell = shell();
    let mut empty = Pipeline { items: Vec::new() };
    let event = RunEvent::BuiltinExpanded { builtin: ECHO, piping: true, rendered: String::new() };
    assert!(matches!(shell.run_pipeline(&mut empty, event), RunAction::ExecutePipeline));
    let event = RunEvent::FunctionInspected { function: GREET, piping: true };
    assert!(matches!(shell.run_pipeline(&mut empty, event), RunAction::ExecutePipeline));
    assert!(matches!(
        shell.run_pipeline(&mut empty, RunEvent::CommandExpanded),
        RunAction::ExecutePipeline
    ));
    assert!(matches!(
        shell.run_pipeline(&mut empty, RunEvent::Called(Ok(()))),
        RunAction::Return(None)
    ));
    assert!(matches!(
        shell.run_pipeline(&mut empty, RunEvent::Reported { status: Some(FAILURE) }),
        RunAction::Return(Some(FAILURE))
    ));
    assert_eq!(shell.previous_status, FAILURE);
}
