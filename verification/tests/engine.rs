use pipr::command_evaluation::{
    blocking_outcome, build_invocation, is_unsafe_command, read_lines_to_string,
    spawn_failure_text, watcher_report, CmdOutput, CommandExecutionRequest, ExecutionMode,
    PolicyError, WaitResult,
};
use pipr::dispatcher::{dispatcher_step, DispatcherEvent, DispatcherState};
use pipr::guard::TerminationGuard;

fn shell_prefix() -> Vec<String> {
    vec!["sh".to_string(), "-c".to_string()]
}

#[test]
fn request_new_keeps_fields() {
    let req = CommandExecutionRequest::new("echo hi".into(), Some(vec!["a".into()]));
    assert_eq!(req.command, "echo hi");
    assert_eq!(req.stdin, Some(vec!["a".to_string()]));
}

#[test]
fn unsafe_mode_builds_direct_invocation() {
    let inv = build_invocation(&shell_prefix(), "echo hello", ExecutionMode::Unsafe).unwrap();
    assert_eq!(inv.program, "sh");
    assert_eq!(inv.args, vec!["-c".to_string(), "echo hello".to_string()]);
}

#[test]
fn harmless_command_output_is_reported_verbatim() {
    // The policy admits the command and the watcher reports exactly the
    // captured standard output, newline-terminated.
    let inv = build_invocation(&shell_prefix(), "echo hello", ExecutionMode::Unsafe);
    assert!(inv.is_ok());
    let report = watcher_report(
        true,
        WaitResult::Exited {
            success: true,
            stdout: Ok(vec!["hello".to_string()]),
            stderr: Ok(vec![]),
        },
    );
    match report {
        Some(CmdOutput::Okay(text)) => assert_eq!(text, "hello\n"),
        _ => panic!("expected a successful outcome"),
    }
}

#[test]
fn blocklisted_commands_are_refused() {
    for cmd in ["rm -rf /tmp/x", "mv a b", "dd if=/dev/zero", "echo rm "] {
        let r = build_invocation(&shell_prefix(), cmd, ExecutionMode::Unsafe);
        assert_eq!(r.unwrap_err(), PolicyError::UnsafeCommandRejected);
    }
    assert_eq!(
        PolicyError::UnsafeCommandRejected.message(),
        "Will not run this command, it's for your own good. Believe me."
    );
}

#[test]
fn blocklist_checks_substrings_only() {
    assert!(is_unsafe_command("rm -r x"));
    assert!(is_unsafe_command("echo a && dd of=/dev/sda"));
    assert!(!is_unsafe_command("rmdir x"));
    assert!(!is_unsafe_command("echo hello"));
    assert!(!is_unsafe_command(""));
}

#[test]
fn blocklist_applies_only_in_unsafe_mode() {
    let r = build_invocation(&shell_prefix(), "rm -rf /", ExecutionMode::Isolated);
    assert!(r.is_ok());
}

#[test]
fn empty_shell_prefix_is_refused() {
    let r = build_invocation(&Vec::new(), "echo hi", ExecutionMode::Unsafe);
    assert_eq!(r.unwrap_err(), PolicyError::ShellPrefixEmpty);
    assert_eq!(PolicyError::ShellPrefixEmpty.message(), "shell_command is empty");
}

#[test]
fn isolated_mode_wraps_in_sandbox_invocation() {
    let inv = build_invocation(&shell_prefix(), "ls", ExecutionMode::Isolated).unwrap();
    assert_eq!(inv.program, "bwrap");
    let expected: Vec<String> = [
        "--ro-bind",
        "/",
        "/",
        "--tmpfs",
        "/tmp",
        "--dev",
        "/dev",
        "--proc",
        "/proc",
        "--die-with-parent",
        "--share-net",
        "--unshare-pid",
        "sh",
        "-c",
        "ls",
    ]
    .iter()
    .map(|s| s.to_string())
    .collect();
    assert_eq!(inv.args, expected);
}

#[test]
fn spawn_failure_prefix_is_fixed() {
    assert_eq!(spawn_failure_text(), "Unable to spawn command");
}

#[test]
fn read_lines_joins_with_newlines() {
    assert_eq!(
        read_lines_to_string(Ok(vec!["a".to_string(), "b".to_string()])),
        "a\nb\n"
    );
    assert_eq!(read_lines_to_string(Ok(vec![])), "\n");
    assert_eq!(read_lines_to_string(Err("broken pipe".to_string())), "broken pipe");
}

#[test]
fn watcher_reports_stderr_on_nonzero_exit() {
    let report = watcher_report(
        true,
        WaitResult::Exited {
            success: false,
            stdout: Ok(vec!["partial".to_string()]),
            stderr: Ok(vec!["oops".to_string()]),
        },
    );
    match report {
        Some(CmdOutput::NotOk(text)) => assert_eq!(text, "oops\n"),
        _ => panic!("expected a failure outcome"),
    }
}

#[test]
fn watcher_degrades_unreadable_stream_to_error_text() {
    let report = watcher_report(
        true,
        WaitResult::Exited {
            success: true,
            stdout: Err("bad read".to_string()),
            stderr: Ok(vec![]),
        },
    );
    match report {
        Some(CmdOutput::Okay(text)) => assert_eq!(text, "bad read"),
        _ => panic!("expected a successful outcome"),
    }
}

#[test]
fn watcher_reports_fixed_timeout_notice() {
    match watcher_report(true, WaitResult::TimedOut) {
        Some(CmdOutput::NotOk(text)) => assert_eq!(text, "Command timed out"),
        _ => panic!("expected a timeout outcome"),
    }
}

#[test]
fn watcher_reports_wait_failure_text() {
    match watcher_report(true, WaitResult::WaitFailed("no child".to_string())) {
        Some(CmdOutput::NotOk(text)) => assert_eq!(text, "no child"),
        _ => panic!("expected a failure outcome"),
    }
}

#[test]
fn losing_watcher_reports_nothing() {
    assert!(watcher_report(false, WaitResult::TimedOut).is_none());
    let r = watcher_report(
        false,
        WaitResult::Exited { success: true, stdout: Ok(vec![]), stderr: Ok(vec![]) },
    );
    assert!(r.is_none());
}

#[test]
fn guard_first_resolver_wins_once() {
    let mut g = TerminationGuard::new();
    assert!(!g.read_resolved());
    assert!(g.try_resolve());
    assert!(g.read_resolved());
    assert!(!g.try_resolve());
    assert!(!g.try_resolve());
    assert!(g.read_resolved());
}

#[test]
fn new_submission_preempts_active_command() {
    let (state, acts) = dispatcher_step(DispatcherState::Idle, DispatcherEvent::Submitted(Ok(7)));
    assert_eq!(state, DispatcherState::Running(7));
    assert_eq!(acts.kill, None);
    assert_eq!(acts.watch, Some(7));
    assert!(acts.publish.is_none());

    let (state, acts) = dispatcher_step(state, DispatcherEvent::Submitted(Ok(9)));
    assert_eq!(state, DispatcherState::Running(9));
    assert_eq!(acts.kill, Some(7));
    assert_eq!(acts.watch, Some(9));
    assert!(acts.publish.is_none());
}

#[test]
fn failed_spawn_publishes_and_keeps_state() {
    let (state, acts) = dispatcher_step(
        DispatcherState::Running(4),
        DispatcherEvent::Submitted(Err("Unable to spawn command".to_string())),
    );
    assert_eq!(state, DispatcherState::Running(4));
    assert_eq!(acts.kill, None);
    assert_eq!(acts.watch, None);
    match acts.publish {
        Some(CmdOutput::NotOk(text)) => assert_eq!(text, "Unable to spawn command"),
        _ => panic!("expected a published failure"),
    }
}

#[test]
fn stop_is_idempotent_and_kills_active() {
    let (state, acts) = dispatcher_step(DispatcherState::Running(3), DispatcherEvent::StopRequested);
    assert_eq!(state, DispatcherState::Stopped);
    assert_eq!(acts.kill, Some(3));

    let (state, acts) = dispatcher_step(state, DispatcherEvent::StopRequested);
    assert_eq!(state, DispatcherState::Stopped);
    assert_eq!(acts.kill, None);
    assert!(acts.publish.is_none());
    assert_eq!(acts.watch, None);
}

#[test]
fn closed_queue_acts_as_stop() {
    let (state, acts) = dispatcher_step(DispatcherState::Running(5), DispatcherEvent::QueueClosed);
    assert_eq!(state, DispatcherState::Stopped);
    assert_eq!(acts.kill, Some(5));
    assert_eq!(acts.watch, None);
    assert!(acts.publish.is_none());
}

#[test]
fn stopped_dispatcher_ignores_everything() {
    for event in [
        DispatcherEvent::Submitted(Ok(1)),
        DispatcherEvent::Submitted(Err("late".to_string())),
        DispatcherEvent::StopRequested,
        DispatcherEvent::QueueClosed,
    ] {
        let (state, acts) = dispatcher_step(DispatcherState::Stopped, event);
        assert_eq!(state, DispatcherState::Stopped);
        assert_eq!(acts.kill, None);
        assert_eq!(acts.watch, None);
        assert!(acts.publish.is_none());
    }
}

#[test]
fn blocking_outcome_passes_lines_through_on_success() {
    let lines = vec!["one".to_string(), "two".to_string()];
    assert_eq!(blocking_outcome(true, Some(0), lines.clone()), Ok(lines));
}

#[test]
fn blocking_outcome_names_the_exit_code() {
    assert_eq!(
        blocking_outcome(false, Some(3), vec![]),
        Err("Non-zero exit code: 3".to_string())
    );
    assert_eq!(
        blocking_outcome(false, Some(-9), vec![]),
        Err("Non-zero exit code: -9".to_string())
    );
    assert_eq!(
        blocking_outcome(false, None, vec![]),
        Err("Non-zero exit code: -1".to_string())
    );
    assert_eq!(
        blocking_outcome(false, Some(127), vec![]),
        Err("Non-zero exit code: 127".to_string())
    );
}
