use command_run::{Command, ExitStatus, Output, SpawnOutcome};

fn completion(status: ExitStatus, stdout: &[u8], stderr: &[u8]) -> SpawnOutcome {
    SpawnOutcome::Completion {
        status,
        stdout: stdout.to_vec(),
        stderr: stderr.to_vec(),
    }
}

#[test]
fn test_status_success() {
    assert!(ExitStatus::Code(0).success());
    assert!(!ExitStatus::Code(1).success());
    assert!(!ExitStatus::Code(-1).success());
    assert!(!ExitStatus::Signal(9).success());
}

#[test]
fn test_status_display() {
    assert_eq!(ExitStatus::Code(0).display_string(), "exit status: 0");
    assert_eq!(ExitStatus::Code(137).display_string(), "exit status: 137");
    assert_eq!(ExitStatus::Code(-1).display_string(), "exit status: -1");
    assert_eq!(ExitStatus::Signal(15).display_string(), "signal: 15");
}

#[test]
fn test_unchecked_never_exit_failure() {
    // With the success check disabled, a non-zero exit is still a success.
    let mut cmd = Command::new("false");
    cmd.disable_check();
    let decision = cmd.conclude(completion(ExitStatus::Code(1), b"", b""));
    let output = decision.result.unwrap();
    assert_eq!(output.status, ExitStatus::Code(1));
    assert!(decision.diagnostic.is_none());
}

#[test]
fn test_checked_exit_failure() {
    // With the success check enabled (the default), a non-zero exit is
    // reported as an exit failure carrying the command and the status.
    let cmd = Command::new("false");
    let decision = cmd.clone().conclude(completion(ExitStatus::Code(1), b"", b""));
    let err = decision.result.unwrap_err();
    assert!(err.is_exit_error());
    assert!(!err.is_run_error());
    assert_eq!(err.command, cmd);
    assert_eq!(err.message(), "command 'false' failed: exit status: 1");
    // Capture is off, so no diagnostic is emitted.
    assert!(decision.diagnostic.is_none());
}

#[test]
fn test_signal_is_exit_failure() {
    let cmd = Command::new("prog");
    let decision = cmd.conclude(completion(ExitStatus::Signal(9), b"", b""));
    let err = decision.result.unwrap_err();
    assert!(err.is_exit_error());
    assert_eq!(err.message(), "command 'prog' failed: signal: 9");
}

#[test]
fn test_launch_failure() {
    // A spawn failure is reported as a run error regardless of the
    // capture and check settings.
    let mut cmd = Command::new("definitely-not-a-real-program");
    cmd.enable_capture();
    let outcome = SpawnOutcome::Failure {
        error: String::from("No such file or directory (os error 2)"),
    };
    let decision = cmd.conclude(outcome);
    let err = decision.result.unwrap_err();
    assert!(err.is_run_error());
    assert!(!err.is_exit_error());
    assert_eq!(
        err.message(),
        "failed to run 'definitely-not-a-real-program': No such file or directory (os error 2)"
    );
}

#[test]
fn test_capture_disabled_empty_output() {
    // Without capture, the result's byte fields are empty even if the
    // host collected something.
    let cmd = Command::new("echo");
    let decision = cmd.conclude(completion(ExitStatus::Code(0), b"hello\n", b"oops\n"));
    let output = decision.result.unwrap();
    assert!(output.stdout.is_empty());
    assert!(output.stderr.is_empty());
}

#[test]
fn test_capture_enabled_output() {
    let mut cmd = Command::with_args("echo", &["hello", "world"]);
    cmd.enable_capture();
    let decision = cmd.conclude(completion(ExitStatus::Code(0), b"hello world\n", b""));
    let output = decision.result.unwrap();
    assert_eq!(output.stdout, b"hello world\n");
    assert_eq!(output.stdout_string_lossy(), "hello world\n");
    assert!(output.status.success());
}

#[test]
fn test_combined_output_empty_stderr() {
    // In merged mode everything is in the stdout field and the separate
    // stderr field is empty.
    let mut cmd = Command::new("testprog");
    cmd.enable_capture();
    cmd.combine_output();
    cmd.disable_check();
    let decision = cmd.conclude(completion(
        ExitStatus::Code(1),
        b"test-stdout\ntest-stderr\n",
        b"",
    ));
    let output = decision.result.unwrap();
    assert_eq!(output.stdout_string_lossy(), "test-stdout\ntest-stderr\n");
    assert_eq!(output.stderr_string_lossy(), "");
}

#[test]
fn test_diagnostic_separate_streams() {
    let mut cmd = Command::new("prog");
    cmd.enable_capture();
    cmd.log_output_on_error = true;
    let decision = cmd.conclude(completion(
        ExitStatus::Code(1),
        b"test-stdout\n",
        b"test-stderr\n",
    ));
    assert!(decision.result.unwrap_err().is_exit_error());
    assert_eq!(
        decision.diagnostic.as_deref(),
        Some("command 'prog' failed: exit status: 1\nstdout:\ntest-stdout\n\nstderr:\ntest-stderr\n")
    );
}

#[test]
fn test_diagnostic_merged_stream() {
    let mut cmd = Command::new("prog");
    cmd.enable_capture();
    cmd.combine_output();
    cmd.log_output_on_error = true;
    let decision = cmd.conclude(completion(
        ExitStatus::Code(1),
        b"test-stdout\ntest-stderr\n",
        b"",
    ));
    assert!(decision.result.unwrap_err().is_exit_error());
    assert_eq!(
        decision.diagnostic.as_deref(),
        Some("command 'prog' failed: exit status: 1\noutput:\ntest-stdout\ntest-stderr\n")
    );
}

#[test]
fn test_diagnostic_needs_capture_and_check() {
    // log_output_on_error does nothing when capture or check is off.
    let mut cmd = Command::new("prog");
    cmd.log_output_on_error = true;
    let decision = cmd
        .clone()
        .conclude(completion(ExitStatus::Code(1), b"out\n", b"err\n"));
    assert!(decision.diagnostic.is_none());

    cmd.enable_capture();
    cmd.disable_check();
    let decision = cmd.conclude(completion(ExitStatus::Code(1), b"out\n", b"err\n"));
    assert!(decision.diagnostic.is_none());
    assert!(decision.result.is_ok());
}

#[test]
fn test_lossy_decoding() {
    let output = Output {
        status: ExitStatus::Code(0),
        stdout: vec![0xff, 0x61],
        stderr: vec![0xf0, 0x9f],
    };
    assert_eq!(output.stdout_string_lossy(), "\u{fffd}a");
    assert_eq!(output.stderr_string_lossy(), "\u{fffd}");
}

#[test]
fn test_rerun_same_outcome() {
    // Concluding the same unmutated command against the same observed
    // outcome twice yields equal results.
    let mut cmd = Command::new("true");
    cmd.enable_capture();
    let first = cmd
        .clone()
        .conclude(completion(ExitStatus::Code(0), b"same\n", b""));
    let second = cmd.conclude(completion(ExitStatus::Code(0), b"same\n", b""));
    assert_eq!(first.result.unwrap(), second.result.unwrap());
}
