use refresh_cli::execute::CliProbe;
use refresh_cli::execute::Execute;
use refresh_cli::execute::ExecuteArgs;
use refresh_cli::execute::ExecuteError;
use refresh_cli::execute::Executer;
use refresh_cli::execute::Launch;
use refresh_cli::execute::Poll;
use refresh_cli::execute::Prepared;
use refresh_cli::execute::SignalStep;
use refresh_cli::execute::WaitStep;
use refresh_cli::execute::IMMICH_CLI_COMMAND;
use refresh_cli::execute::MISSING_EXIT_CODE;
use refresh_cli::execute::POLL_INTERVAL_MILLIS;
use refresh_cli::execute::SIGNAL_EXIT_CODE;
use std::sync::atomic::AtomicBool;
use std::sync::atomic::Ordering;
use std::sync::Arc;

/// Carries out jobs as the tool does when the search for the client ends
/// as `probe_found` says, and starts no process.
struct Rehearsal {
    executer: Executer,
    probe_found: bool,
}

impl Execute for Rehearsal {
    fn execute(&self, args: &ExecuteArgs) -> Result<(), ExecuteError> {
        let probe = if self.probe_found {
            CliProbe::Started
        } else {
            CliProbe::NotFound
        };
        match self.executer.prepare(args, &probe) {
            Prepared::Over { outcome, .. } => outcome,
            Prepared::Start { .. } => panic!("a process would have been started"),
        }
    }
}

fn lines(texts: &[&str]) -> Vec<String> {
    texts.iter().map(|text| text.to_string()).collect()
}

#[test]
fn test_build_command_args() {
    let executer = Executer::new();
    let args = ExecuteArgs {
        path: "/base/child1/grandchildA".into(),
        album_name: "grandchildA".into(),
        dry_run: false,
    };

    let command_args = executer.build_command_args(&args);
    assert_eq!(
        command_args,
        vec![
            "upload",
            "-H",
            "-r",
            "-c",
            "24",
            "-A",
            "grandchildA",
            "/base/child1/grandchildA"
        ]
    );
}

#[test]
fn test_format_command_display() {
    let executer = Executer::new();
    let args = ExecuteArgs {
        path: "/base/child1/grandchildA".into(),
        album_name: "grandchildA".into(),
        dry_run: false,
    };

    let display = executer.format_command_display(&args);
    assert_eq!(
        display,
        r#"immich upload -H -r -c 24 -A "grandchildA" "/base/child1/grandchildA""#
    );
}

#[test]
fn test_execute_trait() {
    let args = ExecuteArgs {
        path: "/test/path".into(),
        album_name: "test_album".into(),
        dry_run: true,
    };

    let found: Box<dyn Execute> = Box::new(Rehearsal {
        executer: Executer::new(),
        probe_found: true,
    });
    let result = found.execute(&args);
    assert!(
        result.is_ok(),
        "Expected success when immich CLI is found in dry run mode"
    );

    let missing: Box<dyn Execute> = Box::new(Rehearsal {
        executer: Executer::new(),
        probe_found: false,
    });
    let result = missing.execute(&args);
    assert!(
        result.is_err(),
        "Expected error when immich CLI is not found"
    );
    assert!(matches!(
        result.unwrap_err(),
        ExecuteError::ImmichCliNotFound(_)
    ));
}

#[test]
fn test_check_immich_cli_not_found() {
    let result = Executer::check_immich_cli_exists(&CliProbe::Started);
    assert!(result.is_ok(), "Expected success when immich CLI is found");

    let result = Executer::check_immich_cli_exists(&CliProbe::NotFound);
    assert!(
        result.is_err(),
        "Expected error when immich CLI is not found"
    );
    assert!(matches!(
        result.unwrap_err(),
        ExecuteError::ImmichCliNotFound(_)
    ));
}

/// A dry run ends well where the client is found, and with the missing
/// client where it is not.
fn check_dry_run(path: &str, album_name: &str, dry_run: bool) {
    let args = ExecuteArgs {
        path: path.into(),
        album_name: album_name.into(),
        dry_run,
    };

    let found = Rehearsal {
        executer: Executer::new(),
        probe_found: true,
    };
    assert!(
        found.execute(&args).is_ok(),
        "Expected success when immich CLI is found in dry run mode"
    );

    let missing = Rehearsal {
        executer: Executer::new(),
        probe_found: false,
    };
    let result = missing.execute(&args);
    assert!(
        result.is_err(),
        "Expected error when immich CLI is not found"
    );
    assert!(matches!(
        result.unwrap_err(),
        ExecuteError::ImmichCliNotFound(_)
    ));
}

#[test]
fn test_executer_execute_dry_run_grandchild() {
    check_dry_run("/base/child1/grandchildA", "grandchildA", true);
}

#[test]
fn test_executer_execute_dry_run_other() {
    check_dry_run("/base/child2/other", "child2", true);
}

#[test]
fn test_executer_execute_dry_run_vacation() {
    check_dry_run("/photos/2024/vacation", "vacation", true);
}

#[test]
fn constants_have_their_values() {
    assert_eq!(IMMICH_CLI_COMMAND, "immich");
    assert_eq!(SIGNAL_EXIT_CODE, 130);
    assert_eq!(POLL_INTERVAL_MILLIS, 100);
    assert_eq!(MISSING_EXIT_CODE, -1);
}

#[test]
fn command_display_is_the_command_that_runs() {
    let executer = Executer::new();
    let args = ExecuteArgs {
        path: "/photos/2024/sea side".into(),
        album_name: "sea side".into(),
        dry_run: false,
    };
    let command_args = executer.build_command_args(&args);
    let display = executer.format_command_display(&args);
    let expected = format!(
        "{} {} \"{}\" \"{}\"",
        IMMICH_CLI_COMMAND,
        command_args[..6].join(" "),
        command_args[6],
        command_args[7]
    );
    assert_eq!(display, expected);
    assert_eq!(
        display,
        "immich upload -H -r -c 24 -A \"sea side\" \"/photos/2024/sea side\""
    );
}

#[test]
fn command_args_do_not_depend_on_dry_run() {
    let executer = Executer::new();
    let wet = ExecuteArgs {
        path: "/a/b/c".into(),
        album_name: "c".into(),
        dry_run: false,
    };
    let dry = ExecuteArgs {
        path: "/a/b/c".into(),
        album_name: "c".into(),
        dry_run: true,
    };
    assert_eq!(
        executer.build_command_args(&wet),
        executer.build_command_args(&dry)
    );
    assert_eq!(
        executer.format_command_display(&wet),
        executer.format_command_display(&dry)
    );
}

#[test]
fn execute_args_clone_keeps_the_fields() {
    let args = ExecuteArgs {
        path: "/a/b/c".into(),
        album_name: "c".into(),
        dry_run: true,
    };
    let copy = args.clone();
    assert_eq!(copy.path, "/a/b/c");
    assert_eq!(copy.album_name, "c");
    assert!(copy.dry_run);
}

#[test]
fn probe_outcomes_are_classified() {
    assert!(Executer::check_immich_cli_exists(&CliProbe::Started).is_ok());
    match Executer::check_immich_cli_exists(&CliProbe::NotFound) {
        Err(ExecuteError::ImmichCliNotFound(place)) => {
            assert_eq!(place, "'immich' command not found in PATH")
        }
        other => panic!("unexpected outcome: {:?}", other),
    }
    match Executer::check_immich_cli_exists(&CliProbe::Failed("permission denied".into())) {
        Err(ExecuteError::Other(message)) => assert_eq!(
            message,
            "Failed to check for 'immich' command: permission denied"
        ),
        other => panic!("unexpected outcome: {:?}", other),
    }
}

#[test]
fn dry_run_never_starts_a_process() {
    let executer = Executer::new();
    let args = ExecuteArgs {
        path: "/base/child1/grandchildA".into(),
        album_name: "grandchildA".into(),
        dry_run: true,
    };
    match executer.prepare(&args, &CliProbe::Started) {
        Prepared::Over { outcome, shown } => {
            assert!(outcome.is_ok());
            assert_eq!(
                shown.unwrap(),
                "immich upload -H -r -c 24 -A \"grandchildA\" \"/base/child1/grandchildA\""
            );
        }
        other => panic!("unexpected step: {:?}", other),
    }
    for probe in [CliProbe::NotFound, CliProbe::Failed("busy".into())] {
        match executer.prepare(&args, &probe) {
            Prepared::Over { outcome, shown } => {
                assert!(outcome.is_err());
                assert!(shown.is_none());
            }
            other => panic!("unexpected step: {:?}", other),
        }
    }
}

#[test]
fn real_run_starts_the_client_once_it_is_found() {
    let executer = Executer::new();
    let args = ExecuteArgs {
        path: "/base/child1/grandchildA".into(),
        album_name: "grandchildA".into(),
        dry_run: false,
    };
    match executer.prepare(&args, &CliProbe::Started) {
        Prepared::Start {
            command_args,
            command_line,
        } => {
            assert_eq!(command_args, executer.build_command_args(&args));
            assert_eq!(command_line, executer.format_command_display(&args));
        }
        other => panic!("unexpected step: {:?}", other),
    }
    match executer.prepare(&args, &CliProbe::NotFound) {
        Prepared::Over { outcome, shown } => {
            assert!(matches!(outcome, Err(ExecuteError::ImmichCliNotFound(_))));
            assert!(shown.is_none());
        }
        other => panic!("unexpected step: {:?}", other),
    }
    match executer.prepare(&args, &CliProbe::Failed("busy".into())) {
        Prepared::Over { outcome, shown } => {
            match outcome {
                Err(ExecuteError::Other(message)) => {
                    assert_eq!(message, "Failed to check for 'immich' command: busy")
                }
                other => panic!("unexpected outcome: {:?}", other),
            }
            assert!(shown.is_none());
        }
        other => panic!("unexpected step: {:?}", other),
    }
}

#[test]
fn launch_failures_have_their_messages() {
    let display = "immich upload -H -r -c 24 -A \"a\" \"/p\"";
    assert!(Executer::launch_failure(&Launch::Running, display).is_none());
    let cases = [
        (
            Launch::NoWorkingDirectory("gone".into()),
            "Failed to get current working directory: gone".to_string(),
        ),
        (
            Launch::SpawnFailed("no such file".into()),
            format!("Failed to spawn command '{}': no such file", display),
        ),
        (Launch::NoStdout, "Failed to capture stdout".to_string()),
        (Launch::NoStderr, "Failed to capture stderr".to_string()),
    ];
    for (launch, expected) in cases {
        match Executer::launch_failure(&launch, display) {
            Some(ExecuteError::Other(message)) => assert_eq!(message, expected),
            other => panic!("unexpected failure: {:?}", other),
        }
    }
}

#[test]
fn signal_step_ends_the_program_with_130() {
    assert_eq!(Executer::signal_step(false), SignalStep::Continue);
    assert_eq!(
        Executer::signal_step(true),
        SignalStep::Terminate { exit_code: 130 }
    );
}

#[test]
fn check_signal_follows_the_flag() {
    let flag = Arc::new(AtomicBool::new(false));
    let executer = Executer::with_flag(Arc::clone(&flag));
    assert_eq!(executer.check_signal(), SignalStep::Continue);
    flag.store(true, Ordering::SeqCst);
    assert_eq!(
        executer.check_signal(),
        SignalStep::Terminate { exit_code: 130 }
    );
    assert_eq!(
        executer.check_signal(),
        SignalStep::Terminate { exit_code: 130 }
    );
}

#[test]
fn new_executer_has_seen_no_signal() {
    let executer = Executer::new();
    assert_eq!(executer.check_signal(), SignalStep::Continue);
}

#[test]
fn wait_steps_follow_the_poll() {
    match Executer::wait_step(&Poll::Running) {
        WaitStep::Sleep { millis } => assert_eq!(millis, 100),
        other => panic!("unexpected step: {:?}", other),
    }
    match Executer::wait_step(&Poll::Exited(Some(3))) {
        WaitStep::Collect { code } => assert_eq!(code, Some(3)),
        other => panic!("unexpected step: {:?}", other),
    }
    match Executer::wait_step(&Poll::Exited(None)) {
        WaitStep::Collect { code } => assert_eq!(code, None),
        other => panic!("unexpected step: {:?}", other),
    }
    match Executer::wait_step(&Poll::Failed("no child".into())) {
        WaitStep::Fail(ExecuteError::Other(message)) => {
            assert_eq!(message, "Error waiting for process: no child")
        }
        other => panic!("unexpected step: {:?}", other),
    }
}

#[test]
fn auth_tokens_are_found_in_lowercase_lines() {
    assert!(Executer::names_auth_token("auth"));
    assert!(Executer::names_auth_token("please login first"));
    assert!(Executer::names_auth_token("bad credentials"));
    assert!(Executer::names_auth_token("401 unauthorized"));
    assert!(Executer::names_auth_token("author unknown"));
    assert!(!Executer::names_auth_token(""));
    assert!(!Executer::names_auth_token("aut h"));
    assert!(!Executer::names_auth_token("connection refused"));
    assert!(!Executer::names_auth_token("LOGIN"));
}

#[test]
fn any_line_may_name_the_token() {
    assert!(!Executer::any_names_auth_token(&lines(&[])));
    assert!(!Executer::any_names_auth_token(&lines(&["a", "b"])));
    assert!(Executer::any_names_auth_token(&lines(&["a", "b", "login"])));
    assert!(Executer::any_names_auth_token(&lines(&["auth", "b"])));
}

#[test]
fn lines_are_lowered_one_for_one() {
    let lowered = Executer::lowercase_lines(&lines(&["Hello", "", "ÄÖ Login", "already low"]));
    assert_eq!(lowered, vec!["hello", "", "äö login", "already low"]);
}

#[test]
fn exit_zero_is_success_whatever_was_written() {
    let written = lines(&["Error: unauthorized", "please LOGIN"]);
    assert!(Executer::classify_exit(Some(0), &written, "cmd").is_ok());
    assert!(Executer::classify_exit(Some(0), &lines(&[]), "cmd").is_ok());
    assert!(Executer::exit_outcome(Some(0), true, "cmd").is_ok());
    assert!(Executer::exit_outcome(Some(0), false, "cmd").is_ok());
}

#[test]
fn failure_without_token_is_generic() {
    let written = lines(&["connection refused", "timeout"]);
    match Executer::classify_exit(Some(1), &written, "immich upload x") {
        Err(ExecuteError::Other(message)) => assert_eq!(
            message,
            "Command 'immich upload x' failed with exit code 1"
        ),
        other => panic!("unexpected outcome: {:?}", other),
    }
    match Executer::classify_exit(Some(2), &lines(&[]), "c") {
        Err(ExecuteError::Other(message)) => {
            assert_eq!(message, "Command 'c' failed with exit code 2")
        }
        other => panic!("unexpected outcome: {:?}", other),
    }
}

#[test]
fn failure_with_token_is_authentication() {
    for (code, line) in [
        (1, "Error: Authentication required"),
        (2, "Please LOGIN first"),
        (77, "invalid Credential"),
        (255, "401 UNAUTHORIZED"),
        (-5, "xxAuThxx"),
    ] {
        let written = lines(&["something else", line]);
        match Executer::classify_exit(Some(code), &written, "cmd") {
            Err(ExecuteError::AuthFailed(message)) => assert_eq!(
                message,
                format!(
                    "Immich CLI authentication required. Exit code: {}. Please authenticate first.",
                    code
                )
            ),
            other => panic!("unexpected outcome: {:?}", other),
        }
    }
}

#[test]
fn missing_exit_code_is_shown_as_minus_one() {
    match Executer::classify_exit(None, &lines(&["killed"]), "cmd") {
        Err(ExecuteError::Other(message)) => {
            assert_eq!(message, "Command 'cmd' failed with exit code -1")
        }
        other => panic!("unexpected outcome: {:?}", other),
    }
    match Executer::classify_exit(None, &lines(&["login"]), "cmd") {
        Err(ExecuteError::AuthFailed(message)) => assert_eq!(
            message,
            "Immich CLI authentication required. Exit code: -1. Please authenticate first."
        ),
        other => panic!("unexpected outcome: {:?}", other),
    }
}

#[test]
fn exit_outcome_takes_the_finding_as_given() {
    match Executer::exit_outcome(Some(9), true, "cmd") {
        Err(ExecuteError::AuthFailed(message)) => assert_eq!(
            message,
            "Immich CLI authentication required. Exit code: 9. Please authenticate first."
        ),
        other => panic!("unexpected outcome: {:?}", other),
    }
    match Executer::exit_outcome(Some(i32::MIN), false, "cmd") {
        Err(ExecuteError::Other(message)) => {
            assert_eq!(message, "Command 'cmd' failed with exit code -2147483648")
        }
        other => panic!("unexpected outcome: {:?}", other),
    }
    match Executer::exit_outcome(Some(i32::MAX), false, "") {
        Err(ExecuteError::Other(message)) => {
            assert_eq!(message, "Command '' failed with exit code 2147483647")
        }
        other => panic!("unexpected outcome: {:?}", other),
    }
}

#[test]
fn execute_errors_have_their_messages() {
    assert_eq!(
        ExecuteError::AuthFailed("token expired".into()).message(),
        "Authentication failed: token expired"
    );
    assert_eq!(
        ExecuteError::ImmichCliNotFound("/usr/bin/immich".into()).message(),
        "Immich CLI not found at /usr/bin/immich"
    );
    assert_eq!(
        ExecuteError::Other("something broke".into()).message(),
        "something broke"
    );
}
