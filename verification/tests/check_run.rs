use checked_command::{Attempt, CheckRun, CommandError, RunStatus};

fn attempt(command: &str, status: RunStatus) -> Attempt {
    Attempt { command: command.to_string(), status }
}

#[test]
fn false_ends_with_exit_code_one() {
    let mut run = attempt("\"false\"", RunStatus::Finished { exit_code: Some(1) });
    assert_eq!(
        run.check_run(),
        Err(CommandError::NonZeroExitCode { command: "\"false\"".to_string(), exit_code: 1 })
    );
}

#[test]
fn true_succeeds() {
    let mut run = attempt("\"true\"", RunStatus::Finished { exit_code: Some(0) });
    assert_eq!(run.check_run(), Ok(()));
}

#[test]
fn missing_binary_is_not_found() {
    let mut run = attempt("\"nonexistent-binary-xyz\"", RunStatus::NotStarted);
    match run.check_run() {
        Err(CommandError::CommandNotFound { command }) => {
            assert!(command.contains("nonexistent-binary-xyz"));
            assert_eq!(command, "\"nonexistent-binary-xyz\"");
        }
        other => panic!("unexpected result: {:?}", other),
    }
}

#[test]
fn not_started_carries_the_whole_command_text() {
    let text = "\"ls\" \"-l\" \"/no such dir\"";
    let mut run = attempt(text, RunStatus::NotStarted);
    assert_eq!(
        run.check_run(),
        Err(CommandError::CommandNotFound { command: text.to_string() })
    );
}

#[test]
fn nonzero_exit_carries_code_and_command_text() {
    let text = "\"sh\" \"-c\" \"exit 42\"";
    let mut run = attempt(text, RunStatus::Finished { exit_code: Some(42) });
    assert_eq!(
        run.check_run(),
        Err(CommandError::NonZeroExitCode { command: text.to_string(), exit_code: 42 })
    );
}

#[test]
fn negative_exit_code_is_an_error() {
    let mut run = attempt("\"prog\"", RunStatus::Finished { exit_code: Some(-1) });
    assert_eq!(
        run.check_run(),
        Err(CommandError::NonZeroExitCode { command: "\"prog\"".to_string(), exit_code: -1 })
    );
}

#[test]
fn extreme_exit_codes_are_errors() {
    for code in [i32::MIN, i32::MAX, 255, 256] {
        let mut run = attempt("\"prog\"", RunStatus::Finished { exit_code: Some(code) });
        assert_eq!(
            run.check_run(),
            Err(CommandError::NonZeroExitCode { command: "\"prog\"".to_string(), exit_code: code })
        );
    }
}

#[test]
fn missing_exit_code_counts_as_success() {
    let mut run = attempt("\"sleep\" \"100\"", RunStatus::Finished { exit_code: None });
    assert_eq!(run.check_run(), Ok(()));
}

#[test]
fn empty_command_text_is_kept() {
    let mut run = attempt("", RunStatus::NotStarted);
    assert_eq!(run.check_run(), Err(CommandError::CommandNotFound { command: String::new() }));
}

#[test]
fn checking_leaves_the_attempt_unchanged() {
    let mut run = attempt("\"false\"", RunStatus::Finished { exit_code: Some(1) });
    let _ = run.check_run();
    assert_eq!(run, attempt("\"false\"", RunStatus::Finished { exit_code: Some(1) }));
}

#[test]
fn checking_twice_gives_the_same_result() {
    let statuses = [
        RunStatus::NotStarted,
        RunStatus::Finished { exit_code: Some(0) },
        RunStatus::Finished { exit_code: Some(3) },
        RunStatus::Finished { exit_code: None },
    ];
    for status in statuses {
        let mut run = attempt("\"prog\" \"arg\"", status);
        let first = run.check_run();
        let second = run.check_run();
        assert_eq!(first, second);
    }
}

#[test]
fn equal_attempts_give_equal_results() {
    let mut first = attempt("\"prog\"", RunStatus::Finished { exit_code: Some(7) });
    let mut second = attempt("\"prog\"", RunStatus::Finished { exit_code: Some(7) });
    assert_eq!(first.check_run(), second.check_run());
}

#[test]
fn different_codes_give_different_errors() {
    let mut first = attempt("\"prog\"", RunStatus::Finished { exit_code: Some(1) });
    let mut second = attempt("\"prog\"", RunStatus::Finished { exit_code: Some(2) });
    assert_ne!(first.check_run(), second.check_run());
}
