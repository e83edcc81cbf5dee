use std::io;

use fnv::FnvHashMap;
use ion_shell::process::{
    CaptureAction, CaptureEvent, Exit, ForkAction, ForkEvent, Pipe, Signal, Signals,
    WorkingDirectory,
};
use ion_shell::{IonError, IonResult, Shell, Variables};

const STDOUT: Pipe = Pipe { read: 10, write: 11 };
const STDERR: Pipe = Pipe { read: 12, write: 13 };

fn shell() -> Shell {
    Shell::new_bin(FnvHashMap::default(), Variables::default())
}

fn failure() -> io::Error {
    io::Error::new(io::ErrorKind::Other, "no more")
}

#[test]
fn fork_opens_two_pipes() {
    let shell = shell();
    assert!(matches!(shell.fork(ForkEvent::Requested), ForkAction::OpenStdout));
    assert!(matches!(
        shell.fork(ForkEvent::StdoutOpened(Ok(STDOUT))),
        ForkAction::OpenStderr { stdout: STDOUT }
    ));
    assert!(matches!(
        shell.fork(ForkEvent::StderrOpened { stdout: STDOUT, opened: Ok(STDERR) }),
        ForkAction::Fork { stdout: STDOUT, stderr: STDERR }
    ));
}

#[test]
fn parent_keeps_the_ends_that_it_reads() {
    let event = ForkEvent::Forked { stdout: STDOUT, stderr: STDERR, forked: Ok(77) };
    match shell().fork(event) {
        ForkAction::Return { close, result: Ok(result) } => {
            assert_eq!(close, vec![11, 13]);
            assert_eq!(result, IonResult { pid: 77, stdout: 10, stderr: 12 });
        }
        _ => panic!("the parent"),
    }
}

#[test]
fn child_closes_every_descriptor() {
    let mut shell = shell();
    let event = ForkEvent::Forked { stdout: STDOUT, stderr: STDERR, forked: Ok(0) };
    match shell.fork(event) {
        ForkAction::RunChild { stdout_to, stderr_to, close } => {
            assert_eq!(stdout_to, 11);
            assert_eq!(stderr_to, 13);
            assert_eq!(close, vec![11, 10, 13, 12]);
        }
        _ => panic!("the child"),
    }
    shell.previous_status = 6;
    assert!(matches!(shell.fork(ForkEvent::ChildDone), ForkAction::ExitChild(6)));
}

#[test]
fn failed_fork_closes_what_it_opened() {
    let shell = shell();
    match shell.fork(ForkEvent::StdoutOpened(Err(failure()))) {
        ForkAction::Return { close, result: Err(IonError::Fork(why)) } => {
            assert!(close.is_empty());
            assert_eq!(why.to_string(), "no more");
        }
        _ => panic!("the error"),
    }
    match shell.fork(ForkEvent::StderrOpened { stdout: STDOUT, opened: Err(failure()) }) {
        ForkAction::Return { close, result: Err(IonError::Fork(_)) } => {
            assert_eq!(close, vec![11, 10]);
        }
        _ => panic!("the error"),
    }
    let event = ForkEvent::Forked { stdout: STDOUT, stderr: STDERR, forked: Err(failure()) };
    match shell.fork(event) {
        ForkAction::Return { close, result: Err(IonError::Fork(_)) } => {
            assert_eq!(close, vec![13, 12, 11, 10]);
        }
        _ => panic!("the error"),
    }
}

#[test]
fn command_expands_to_its_output() {
    let shell = shell();
    match shell.command(CaptureEvent::Requested { command: "date".to_owned() }) {
        CaptureAction::Fork { command } => assert_eq!(command, "date"),
        _ => panic!("the fork"),
    }
    let forked = CaptureEvent::Forked {
        outcome: Ok(IonResult { pid: 5, stdout: 21, stderr: 22 }),
        why: String::new(),
    };
    assert!(matches!(shell.command(forked), CaptureAction::Read { stdout: 21 }));
    match shell.command(CaptureEvent::Read(Ok("today\n".to_owned()))) {
        CaptureAction::Return { output, diagnostic } => {
            assert_eq!(output, Some("today\n".to_owned()));
            assert_eq!(diagnostic, None);
        }
        _ => panic!("the output"),
    }
}

#[test]
fn failed_capture_says_why() {
    let shell = shell();
    match shell.command(CaptureEvent::Read(Err("broken pipe".to_owned()))) {
        CaptureAction::Return { output, diagnostic } => {
            assert_eq!(output, None);
            assert_eq!(
                diagnostic,
                Some("ion: error reading stdout of child: broken pipe".to_owned())
            );
        }
        _ => panic!("the failure"),
    }
    let event = CaptureEvent::Forked {
        outcome: Err(IonError::Fork(failure())),
        why: "no more".to_owned(),
    };
    match shell.command(event) {
        CaptureAction::Return { output, diagnostic } => {
            assert_eq!(output, None);
            assert_eq!(diagnostic, Some("ion: fork error: failed to fork: no more\n".to_owned()));
        }
        _ => panic!("the failure"),
    }
}

#[test]
fn signal_is_found_by_its_mark() {
    let shell = shell();
    let signals = Signals {
        interrupt: Signal { mark: 1, number: 2 },
        hangup: Signal { mark: 2, number: 1 },
        terminate: Signal { mark: 4, number: 15 },
    };
    assert_eq!(shell.next_signal(0, signals), None);
    assert_eq!(shell.next_signal(1, signals), Some(2));
    assert_eq!(shell.next_signal(2, signals), Some(1));
    assert_eq!(shell.next_signal(4, signals), Some(15));
}

#[test]
fn exit_commits_the_history_of_a_session() {
    let mut shell = shell();
    assert_eq!(shell.exit(3), Exit { commit_history: false, status: 3 });
    shell.has_context = true;
    assert_eq!(shell.exit(0), Exit { commit_history: true, status: 0 });
}

fn pair(name: &str, value: &str) -> (String, String) {
    (name.to_owned(), value.to_owned())
}

#[test]
fn change_of_directory_is_noted_once() {
    let mut shell = shell();
    shell.set_var("PWD", "/home");
    let updates = shell.update_variables(WorkingDirectory::Path("/tmp".to_owned()));
    assert_eq!(updates, vec![pair("OLDPWD", "/home"), pair("PWD", "/tmp")]);
    for (name, value) in &updates {
        shell.set_var(name, value);
    }
    assert!(shell.update_variables(WorkingDirectory::Path("/tmp".to_owned())).is_empty());
    assert_eq!(shell.get_var_or_empty("OLDPWD"), "/home");
}

#[test]
fn unknown_directory_is_a_question_mark() {
    let mut shell = shell();
    assert_eq!(shell.update_variables(WorkingDirectory::Unknown), vec![pair("PWD", "?")]);
    assert_eq!(
        shell.update_variables(WorkingDirectory::Unreadable),
        vec![pair("OLDPWD", ""), pair("PWD", "?")]
    );
    shell.set_var("PWD", "?");
    assert!(shell.update_variables(WorkingDirectory::Unreadable).is_empty());
}

#[test]
fn unknown_directory_settles_too() {
    let mut shell = shell();
    shell.set_var("PWD", "/home");
    for _ in 0..2 {
        for (name, value) in shell.update_variables(WorkingDirectory::Unknown) {
            shell.set_var(&name, &value);
        }
        assert_eq!(shell.get_var_or_empty("PWD"), "?");
        assert_eq!(shell.get_var("OLDPWD"), None);
    }
}

#[test]
fn whole_capture_forks_and_reads_once() {
    let shell = shell();
    let mut work: Vec<String> = Vec::new();
    let mut event = CaptureEvent::Requested { command: "date".to_owned() };
    let output = loop {
        event = match shell.command(event) {
            CaptureAction::Fork { command } => {
                work.push(format!("fork {}", command));
                CaptureEvent::Forked {
                    outcome: Ok(IonResult { pid: 5, stdout: 21, stderr: 22 }),
                    why: String::new(),
                }
            }
            CaptureAction::Read { stdout } => {
                work.push(format!("read {}", stdout));
                CaptureEvent::Read(Ok("today".to_owned()))
            }
            CaptureAction::Return { output, .. } => break output,
        };
    };
    assert_eq!(work, vec!["fork date", "read 21"]);
    assert_eq!(output, Some("today".to_owned()));
}
