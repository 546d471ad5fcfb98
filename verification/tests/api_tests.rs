use std::path::PathBuf;

use qubit_command::helpers::helper_disposition;
use qubit_command::helpers::HelperDisposition;
use qubit_command::Command;
use qubit_command::CommandError;
use qubit_command::CommandErrorReason;
use qubit_command::CommandOutput;
use qubit_command::CommandRunOptions;
use qubit_command::CommandRunner;
use qubit_command::CommandStdin;
use qubit_command::ExitStatus;
use qubit_command::TimeSpan;

/// Unwraps a value whose failure side has no `Debug` rendering.
trait Must<T> {
    fn must(self, message: &str) -> T;
}

impl<T> Must<T> for Option<T> {
    fn must(self, message: &str) -> T {
        match self {
            Some(value) => value,
            None => panic!("{message}"),
        }
    }
}

impl<T, E> Must<T> for Result<T, E> {
    fn must(self, message: &str) -> T {
        match self {
            Ok(value) => value,
            Err(_) => panic!("{message}"),
        }
    }
}


fn sample_output() -> CommandOutput {
    CommandOutput::new(
        ExitStatus::exited(0),
        (b"hello\xffworld".to_vec(), false, true),
        (b"warn".to_vec(), false, true),
        TimeSpan::from_millis(3),
    )
}

#[test]
fn bounded_output_limits_both_streams_and_fails_on_truncation() {
    let runner = CommandRunner::without_timeout().unbounded_output().bounded_output(64);
    assert_eq!(runner.configured_max_stdout_bytes(), Some(64));
    assert_eq!(runner.configured_max_stderr_bytes(), Some(64));
    assert!(runner.is_output_truncation_failure_enabled());
}

#[test]
fn unbounded_output_after_bounded_output_lifts_limits() {
    let runner = CommandRunner::without_timeout().bounded_output(8).unbounded_output();
    assert_eq!(runner.configured_max_stdout_bytes(), None);
    assert_eq!(runner.configured_max_stderr_bytes(), None);
    assert!(!runner.is_output_truncation_failure_enabled());
}

#[test]
fn output_accessors_hand_back_captured_bytes() {
    let output = sample_output();
    assert_eq!(output.stdout_lossy_text(), "hello\u{FFFD}world");
    assert_eq!(sample_output().into_stdout(), b"hello\xffworld".to_vec());
    assert_eq!(sample_output().into_stderr(), b"warn".to_vec());
}

#[test]
fn error_into_output_returns_attached_output() {
    let error = CommandError::from_reason("tool", CommandErrorReason::Cancelled, Some(Box::new(sample_output())));
    let output = error.into_output().must("output attached");
    assert_eq!(output.stderr(), b"warn");
    let bare = CommandError::from_reason("tool", CommandErrorReason::Cancelled, None);
    assert!(bare.into_output().is_none());
}

#[test]
fn sensitive_os_argument_is_kept_and_hidden_in_display() {
    let command = Command::new("tool").arg("visible").sensitive_arg_os(b"hidden-token");
    assert_eq!(command.argument_count(), 2);
    assert_eq!(command.argument(1), b"hidden-token");
    let policy = CommandRunner::without_timeout().configured_diagnostic_redaction_policy().clone();
    let text = command.display_command(&policy);
    assert!(text.contains("visible"));
    assert!(!text.contains("hidden-token"));
}

#[test]
fn stdin_selection_takes_the_last_choice() {
    let inherited = Command::new("tool").stdin_bytes(b"data".to_vec()).stdin_inherit();
    assert!(matches!(inherited.into_stdin_configuration(), CommandStdin::Inherit));
    let nulled = Command::new("tool").stdin_inherit().stdin_null();
    assert!(matches!(nulled.into_stdin_configuration(), CommandStdin::Null));
}

#[test]
fn stderr_tee_path_is_recorded() {
    let options = CommandRunOptions::new().tee_stderr_to_file(PathBuf::from("/tmp/err.log"));
    assert_eq!(options.configured_stderr_file(), Some(&PathBuf::from("/tmp/err.log")));
    assert_eq!(options.configured_stdout_file(), None);
}

#[test]
fn stopped_helpers_are_joined_unless_a_failed_interruption_outlasts_the_deadline() {
    assert_eq!(helper_disposition(false, false), HelperDisposition::Join);
    assert_eq!(helper_disposition(false, true), HelperDisposition::Join);
    assert_eq!(helper_disposition(true, true), HelperDisposition::Join);
    assert_eq!(helper_disposition(true, false), HelperDisposition::Detach);
}
