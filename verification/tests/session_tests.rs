use minishell::command::{Action, ShellError};
use minishell::session::{
    Next, Outcome, Reply, Session, FATAL_CODE, STATUS_FAILURE, STATUS_SUCCESS,
};
use minishell::shell::interpret;

fn quiet() -> Outcome {
    Outcome { output: None, error: None, next: Next::Prompt { status: 1 } }
}

fn done(cwd: &str) -> Reply {
    Reply::Done { cwd: cwd.to_string() }
}

fn refused(message: &str) -> Reply {
    Reply::Refused { message: message.to_string() }
}

#[test]
fn status_values() {
    assert_eq!(STATUS_SUCCESS, 1);
    assert_eq!(STATUS_FAILURE, 0);
    assert_eq!(FATAL_CODE, 1);
}

#[test]
fn new_session_starts_in_the_given_directory() {
    assert_eq!(Session::new("/home".to_string()).cwd, "/home");
}

#[test]
fn cd_to_existing_directory_changes_the_working_directory() {
    let mut session = Session::new("/home".to_string());
    let action = interpret("cd /tmp/../tmp").unwrap();
    let outcome = session.settle(&action, done("/tmp"));
    assert_eq!(session.cwd, "/tmp");
    assert_eq!(outcome, quiet());
}

#[test]
fn cd_to_missing_directory_keeps_the_working_directory() {
    let mut session = Session::new("/home".to_string());
    let action = interpret("cd /no/such/dir").unwrap();
    let outcome = session.settle(&action, refused("No such file or directory (os error 2)"));
    assert_eq!(session.cwd, "/home");
    assert_eq!(
        outcome,
        Outcome {
            output: None,
            error: Some(ShellError::InvalidDirectory {
                message: "No such file or directory (os error 2)".to_string()
            }),
            next: Next::Prompt { status: 0 },
        }
    );
}

#[test]
fn exit_terminates_and_shows_nothing() {
    let mut session = Session::new("/home".to_string());
    let action = interpret("exit").unwrap();
    let outcome = session.settle(&action, done("/home"));
    assert_eq!(outcome, Outcome { output: None, error: None, next: Next::Terminate { code: 0 } });
    assert_eq!(session.cwd, "/home");
}

#[test]
fn help_prints_and_keeps_the_working_directory() {
    let mut session = Session::new("/home".to_string());
    let action = interpret("help").unwrap();
    let outcome = session.settle(&action, done("/elsewhere"));
    assert_eq!(
        outcome,
        Outcome {
            output: Some("HELP!".to_string()),
            error: None,
            next: Next::Prompt { status: 1 }
        }
    );
    assert!(!outcome.output.unwrap().is_empty());
    assert_eq!(session.cwd, "/home");
}

#[test]
fn blank_line_changes_nothing() {
    let mut session = Session::new("/home".to_string());
    let action = interpret("   ").unwrap();
    assert_eq!(session.settle(&action, done("/elsewhere")), quiet());
    assert_eq!(session.settle(&action, refused("x")), quiet());
    assert_eq!(session.settle(&action, Reply::WaitFailed { recoverable: false }), quiet());
    assert_eq!(session.cwd, "/home");
}

#[test]
fn program_that_ran_leads_back_to_the_prompt() {
    let mut session = Session::new("/home".to_string());
    let action = interpret("ls -la").unwrap();
    let outcome = session.settle(&action, done("/elsewhere"));
    assert_eq!(outcome, quiet());
    assert_eq!(session.cwd, "/home");
}

#[test]
fn program_that_cannot_be_started_is_reported() {
    let mut session = Session::new("/home".to_string());
    let action = interpret("nonexistent_cmd_xyz").unwrap();
    let outcome = session.settle(&action, refused("No such file or directory (os error 2)"));
    assert_eq!(
        outcome,
        Outcome {
            output: None,
            error: Some(ShellError::CommandNotFound { name: "nonexistent_cmd_xyz".to_string() }),
            next: Next::Prompt { status: 0 },
        }
    );
    assert_eq!(session.cwd, "/home");
}

#[test]
fn wait_failure_that_can_be_recovered_leads_back_to_the_prompt() {
    let mut session = Session::new("/home".to_string());
    let action = interpret("sleep 1").unwrap();
    let outcome = session.settle(&action, Reply::WaitFailed { recoverable: true });
    assert_eq!(
        outcome,
        Outcome {
            output: None,
            error: Some(ShellError::WaitFailed),
            next: Next::Prompt { status: 0 }
        }
    );
}

#[test]
fn wait_failure_beyond_recovery_ends_the_shell() {
    let mut session = Session::new("/home".to_string());
    let action = interpret("sleep 1").unwrap();
    let outcome = session.settle(&action, Reply::WaitFailed { recoverable: false });
    assert_eq!(
        outcome,
        Outcome {
            output: None,
            error: Some(ShellError::WaitFailed),
            next: Next::Terminate { code: 1 }
        }
    );
    assert_eq!(session.cwd, "/home");
}

#[test]
fn wait_failure_is_told_of_cd_as_of_a_program() {
    let mut session = Session::new("/home".to_string());
    let action = Action::ChangeDir { path: "/tmp".to_string() };
    let outcome = session.settle(&action, Reply::WaitFailed { recoverable: true });
    assert_eq!(outcome.error, Some(ShellError::WaitFailed));
    assert_eq!(outcome.next, Next::Prompt { status: 0 });
    assert_eq!(session.cwd, "/home");
}

#[test]
fn failure_reports_and_prompts_again() {
    assert_eq!(
        Outcome::failure(ShellError::MissingArgument),
        Outcome {
            output: None,
            error: Some(ShellError::MissingArgument),
            next: Next::Prompt { status: 0 }
        }
    );
}

#[test]
fn only_cd_moves_the_session() {
    let replies = [
        done("/elsewhere"),
        refused("no"),
        Reply::WaitFailed { recoverable: true },
        Reply::WaitFailed { recoverable: false },
    ];
    for line in ["", "help", "exit", "ls -la", "cd /tmp"] {
        for reply in replies.iter() {
            let mut session = Session::new("/home".to_string());
            let action = interpret(line).unwrap();
            session.settle(&action, reply.clone());
            let moved = line == "cd /tmp" && *reply == done("/elsewhere");
            assert_eq!(session.cwd != "/home", moved);
        }
    }
}

#[test]
fn several_commands_in_a_row() {
    let mut session = Session::new("/".to_string());
    let cd = interpret("cd usr").unwrap();
    session.settle(&cd, done("/usr"));
    let ls = interpret("ls").unwrap();
    session.settle(&ls, done("/usr"));
    let bad = interpret("cd nowhere").unwrap();
    session.settle(&bad, refused("No such file or directory (os error 2)"));
    assert_eq!(session.cwd, "/usr");
    let cd = interpret("cd lib").unwrap();
    session.settle(&cd, done("/usr/lib"));
    assert_eq!(session.cwd, "/usr/lib");
}

#[test]
fn working_dir_reports_the_directory() {
    let mut session = Session::new("/home".to_string());
    assert_eq!(session.working_dir(), "/home");
    let action = interpret("cd /var").unwrap();
    session.settle(&action, done("/var"));
    assert_eq!(session.working_dir(), "/var");
}

#[test]
fn end_of_input_ends_the_shell() {
    assert_eq!(
        Outcome::end_of_input(true),
        Outcome { output: None, error: None, next: Next::Terminate { code: 0 } }
    );
    assert_eq!(
        Outcome::end_of_input(false),
        Outcome { output: None, error: None, next: Next::Terminate { code: 1 } }
    );
}
