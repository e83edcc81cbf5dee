use std::io;

use fnv::FnvHashMap;
use ion_shell::execute::{
    CommandAction, CommandEvent, FunctionAction, FunctionEvent, InitAction, InitEvent,
    ScriptAction, ScriptEvent,
};
use ion_shell::shell::{Function, FAILURE};
use ion_shell::{FunctionError, IonError, Shell, Variables};

fn shell() -> Shell {
    Shell::new(FnvHashMap::default(), Variables::default())
}

#[test]
fn unterminated_command_is_not_executed() {
    let shell = shell();
    assert!(matches!(
        shell.execute_command(CommandEvent::Submitted { statement: None }),
        CommandAction::Return(Err(IonError::Unterminated))
    ));
}

#[test]
fn command_returns_the_status_of_the_shell() {
    let mut shell = shell();
    match shell.execute_command(CommandEvent::Submitted { statement: Some("true".to_owned()) }) {
        CommandAction::Execute(statement) => assert_eq!(statement, "true"),
        _ => panic!("the statement"),
    }
    shell.previous_status = 9;
    assert!(matches!(
        shell.execute_command(CommandEvent::Executed),
        CommandAction::Return(Ok(9))
    ));
}

#[test]
fn script_is_executed_line_by_line() {
    let mut shell = shell();
    match shell.execute_script(ScriptEvent::Read(Ok("a\n\nb c\r\nd".to_owned()))) {
        ScriptAction::Execute(lines) => assert_eq!(lines, vec!["a", "", "b c", "d"]),
        _ => panic!("the lines"),
    }
}

#[test]
fn unreadable_script_is_an_error() {
    let mut shell = shell();
    let why = io::Error::new(io::ErrorKind::NotFound, "no script");
    match shell.execute_script(ScriptEvent::Read(Err(why))) {
        ScriptAction::Return(Err(why)) => assert_eq!(why.to_string(), "no script"),
        _ => panic!("the error"),
    }
    assert_eq!(shell.previous_status, 0);
}

#[test]
fn failed_script_leaves_a_failure() {
    let mut shell = shell();
    shell.previous_status = 42;
    assert!(matches!(
        shell.execute_script(ScriptEvent::Executed(7)),
        ScriptAction::Return(Ok(42))
    ));
    assert_eq!(shell.previous_status, 42);
    assert!(matches!(
        shell.execute_script(ScriptEvent::Executed(FAILURE)),
        ScriptAction::Return(Ok(FAILURE))
    ));
    assert_eq!(shell.previous_status, FAILURE);
}

#[test]
fn unknown_function_does_not_exist() {
    let shell = shell();
    assert!(matches!(
        shell.execute_function(FunctionEvent::Requested {
            name: "f".to_owned(),
            args: Vec::new()
        }),
        FunctionAction::Return(Err(IonError::DoesNotExist))
    ));
}

#[test]
fn function_is_found_and_its_outcome_returned() {
    let mut shell = shell();
    shell.functions.insert("f".to_owned(), Function { id: 4 });
    shell.functions.insert("g".to_owned(), Function { id: 5 });
    shell.previous_status = 3;
    let event =
        FunctionEvent::Requested { name: "f".to_owned(), args: vec!["f".to_owned(), "x".to_owned()] };
    match shell.execute_function(event) {
        FunctionAction::Call { function, args } => {
            assert_eq!(function, Function { id: 4 });
            assert_eq!(args, vec!["f", "x"]);
        }
        _ => panic!("the function"),
    }
    assert!(matches!(
        shell.execute_function(FunctionEvent::Called(Ok(()))),
        FunctionAction::Return(Ok(3))
    ));
    assert!(matches!(
        shell.execute_function(FunctionEvent::Called(Err(FunctionError::InvalidArgumentCount))),
        FunctionAction::Return(Err(IonError::Function(FunctionError::InvalidArgumentCount)))
    ));
}

#[test]
fn errors_describe_themselves() {
    let fork = IonError::Fork(io::Error::new(io::ErrorKind::Other, "limit"));
    assert_eq!(fork.describe("limit"), "failed to fork: limit\n");
    assert_eq!(IonError::DoesNotExist.describe("x"), "element does not exist\n");
    assert_eq!(IonError::Unterminated.describe("x"), "input was not terminated\n");
    assert_eq!(
        IonError::Function(FunctionError::InvalidArgumentCount).describe("too many"),
        "function error: too many\n"
    );
}

fn finished(action: InitAction) -> Option<String> {
    match action {
        InitAction::Finish { diagnostic } => diagnostic,
        _ => panic!("the end"),
    }
}

#[test]
fn init_file_is_evaluated_where_it_exists() {
    let shell = shell();
    match shell.evaluate_init_file(InitEvent::Requested) {
        InitAction::Locate { name, author } => {
            assert_eq!(name, "ion");
            assert_eq!(author, "Redox OS Developers");
        }
        _ => panic!("the directory"),
    }
    match shell.evaluate_init_file(InitEvent::Located(Ok(()))) {
        InitAction::Probe { name } => assert_eq!(name, "initrc"),
        _ => panic!("the file"),
    }
    let found = InitEvent::Probed { exists: true, shown: "\"/c/initrc\"".to_owned() };
    assert!(matches!(shell.evaluate_init_file(found), InitAction::Evaluate));
    assert_eq!(finished(shell.evaluate_init_file(InitEvent::Evaluated(Ok(1)))), None);
    assert_eq!(
        finished(shell.evaluate_init_file(InitEvent::Evaluated(Err("denied".to_owned())))),
        Some("ion: denied".to_owned())
    );
}

#[test]
fn init_file_is_created_where_it_is_missing() {
    let shell = shell();
    let missing = InitEvent::Probed { exists: false, shown: "\"/c/initrc\"".to_owned() };
    match shell.evaluate_init_file(missing) {
        InitAction::Create { notice } => {
            assert_eq!(notice, "ion: creating initrc file at \"/c/initrc\"")
        }
        _ => panic!("the creation"),
    }
    assert_eq!(finished(shell.evaluate_init_file(InitEvent::Created(Ok(())))), None);
    assert_eq!(
        finished(shell.evaluate_init_file(InitEvent::Created(Err("denied".to_owned())))),
        Some("ion: could not create initrc file: denied".to_owned())
    );
    assert_eq!(
        finished(shell.evaluate_init_file(InitEvent::Located(Err("no home".to_owned())))),
        Some("ion: unable to get config root: no home".to_owned())
    );
}

#[test]
fn scripts_with_other_line_ends_are_executed_alike() {
    let mut shell = shell();
    for text in ["a\nb\n", "a\r\nb\r\n", "a\r\nb\n", "a\nb"] {
        match shell.execute_script(ScriptEvent::Read(Ok(text.to_owned()))) {
            ScriptAction::Execute(lines) => assert_eq!(lines, vec!["a", "b"]),
            _ => panic!("the lines"),
        }
    }
}

#[test]
fn whole_command_executes_its_statement_once() {
    let mut shell = shell();
    let mut executed: Vec<String> = Vec::new();
    let mut event = CommandEvent::Submitted { statement: Some("false".to_owned()) };
    let result = loop {
        event = match shell.execute_command(event) {
            CommandAction::Execute(statement) => {
                executed.push(statement);
                shell.previous_status = 1;
                CommandEvent::Executed
            }
            CommandAction::Return(result) => break result,
        };
    };
    assert_eq!(executed, vec!["false"]);
    assert!(matches!(result, Ok(1)));
}

#[test]
fn whole_script_is_executed_once() {
    let mut shell = shell();
    let mut executed: Vec<Vec<String>> = Vec::new();
    let mut event = ScriptEvent::Read(Ok("a\nb".to_owned()));
    let result = loop {
        event = match shell.execute_script(event) {
            ScriptAction::Execute(lines) => {
                executed.push(lines);
                shell.previous_status = 12;
                ScriptEvent::Executed(0)
            }
            ScriptAction::Return(result) => break result,
        };
    };
    assert_eq!(executed, vec![vec!["a", "b"]]);
    assert!(matches!(result, Ok(12)));
}

#[test]
fn whole_function_is_called_once() {
    let mut shell = shell();
    shell.functions.insert("f".to_owned(), Function { id: 4 });
    let mut calls = 0;
    let mut event = FunctionEvent::Requested { name: "f".to_owned(), args: Vec::new() };
    let result = loop {
        event = match shell.execute_function(event) {
            FunctionAction::Call { .. } => {
                calls += 1;
                shell.previous_status = 2;
                FunctionEvent::Called(Ok(()))
            }
            FunctionAction::Return(result) => break result,
        };
    };
    assert_eq!(calls, 1);
    assert!(matches!(result, Ok(2)));
}

#[test]
fn whole_init_file_is_executed_or_created_once() {
    let shell = shell();
    for exists in [true, false] {
        let mut evaluated = 0;
        let mut created = 0;
        let mut steps = 0;
        let mut event = InitEvent::Requested;
        let diagnostic = loop {
            steps += 1;
            event = match shell.evaluate_init_file(event) {
                InitAction::Locate { .. } => InitEvent::Located(Ok(())),
                InitAction::Probe { .. } => InitEvent::Probed { exists, shown: "p".to_owned() },
                InitAction::Evaluate => {
                    evaluated += 1;
                    InitEvent::Evaluated(Ok(0))
                }
                InitAction::Create { .. } => {
                    created += 1;
                    InitEvent::Created(Ok(()))
                }
                InitAction::Finish { diagnostic } => break diagnostic,
            };
        };
        assert_eq!(steps, 4);
        assert_eq!((evaluated, created), if exists { (1, 0) } else { (0, 1) });
        assert_eq!(diagnostic, None);
    }
}
