use std::path::Path;
use std::path::PathBuf;

use qubit_command::io_files::check_output_path;
use qubit_command::io_files::check_regular_input;
use qubit_command::io_files::choose_normalized_path;
use qubit_command::io_files::validate_file_identities;
use qubit_command::io_files::validate_normalized_paths;
use qubit_command::io_files::FileIdentity;
use qubit_command::paths::normalize_lexically;
use qubit_command::paths::PathPart;
use qubit_command::Command;
use qubit_command::CommandCancellation;
use qubit_command::CommandErrorKind;
use qubit_command::CommandErrorReason;
use qubit_command::CommandOutput;
use qubit_command::CommandRunOptions;
use qubit_command::CommandRunner;
use qubit_command::CommandStdin;
use qubit_command::ExitStatus;
use qubit_command::IoFailure;
use qubit_command::IoFailureKind;
use qubit_command::OutputStream;
use qubit_command::TimeSpan;
use qubit_command::DEFAULT_MAX_OUTPUT_BYTES_PER_STREAM;

/// Unwraps a value whose failure side has no `Debug` rendering.
trait Must<T> {
    fn must(self, message: &str) -> T;
}

impl<T> Must<T> for Option<T> {
    fn must(self, message: &str) -> T {
        match self {
            Some(value) => value,
            None => panic!("{message}"),
        }
    }
}

impl<T, E> Must<T> for Result<T, E> {
    fn must(self, message: &str) -> T {
        match self {
            Ok(value) => value,
            Err(_) => panic!("{message}"),
        }
    }
}


fn output(code: i32, stdout_truncated: bool) -> CommandOutput {
    CommandOutput::new(
        ExitStatus::exited(code),
        (b"out".to_vec(), stdout_truncated, true),
        (b"err".to_vec(), false, true),
        TimeSpan::from_millis(5),
    )
}

fn parts(path: &str) -> Vec<PathPart> {
    path.split('/')
        .enumerate()
        .filter_map(|(index, part)| match part {
            "" if index == 0 => Some(PathPart::RootDir),
            "" => None,
            "." => Some(PathPart::CurDir),
            ".." => Some(PathPart::ParentDir),
            name => Some(PathPart::Normal(name.as_bytes().to_vec())),
        })
        .collect()
}

#[test]
fn runner_defaults_match_the_documentation() {
    let runner = CommandRunner::new(TimeSpan::from_secs(10));
    assert_eq!(runner.configured_timeout(), Some(TimeSpan::from_secs(10)));
    assert_eq!(runner.configured_success_exit_codes(), &[0]);
    assert!(runner.is_output_truncation_failure_enabled());
    assert!(!runner.is_logging_disabled());
    assert_eq!(runner.configured_max_stdout_bytes(), Some(DEFAULT_MAX_OUTPUT_BYTES_PER_STREAM));
    assert_eq!(runner.configured_max_stderr_bytes(), Some(1024 * 1024));
    assert!(runner.configured_working_directory().is_none());
    assert_eq!(CommandRunner::without_timeout().configured_timeout(), None);
}

#[test]
fn runner_builders_change_only_their_setting() {
    let runner = CommandRunner::without_timeout()
        .success_exit_codes(&[0, 3])
        .success_exit_code(7)
        .max_stdout_bytes(10)
        .max_stderr_bytes(20)
        .disable_logging(true)
        .working_directory(PathBuf::from("/tmp"));
    assert_eq!(runner.configured_success_exit_codes(), &[7], "a single code replaces the list");
    assert_eq!(runner.configured_max_stdout_bytes(), Some(10));
    assert_eq!(runner.configured_max_stderr_bytes(), Some(20));
    assert!(runner.is_logging_disabled());
    assert_eq!(runner.configured_working_directory().map(PathBuf::as_path), Some(Path::new("/tmp")));

    let unbounded = runner.unbounded_output();
    assert_eq!(unbounded.configured_max_stdout_bytes(), None);
    assert_eq!(unbounded.configured_max_stderr_bytes(), None);
    assert!(!unbounded.is_output_truncation_failure_enabled());

    let bounded = CommandRunner::without_timeout().max_output_bytes(4);
    assert_eq!(bounded.configured_max_stdout_bytes(), Some(4));
    assert_eq!(bounded.configured_max_stderr_bytes(), Some(4));
}

#[test]
fn finish_run_accepts_success_and_rejects_other_exits() {
    let runner = CommandRunner::without_timeout().success_exit_codes(&[0, 2]);
    let ok = runner.finish_run("cmd", output(2, false)).must("a configured code is a success");
    assert_eq!(ok.stdout(), b"out");

    let error = runner.finish_run("cmd", output(1, false)).err().must("other codes fail");
    assert!(error.is_unexpected_exit());
    assert_eq!(error.exit_code(), Some(1));
    assert!(matches!(
        error.reason(),
        CommandErrorReason::UnexpectedExit { exit_code: Some(1), expected } if expected == &vec![0, 2]
    ));
    assert_eq!(error.output().map(CommandOutput::stderr), Some(&b"err"[..]));
}

#[test]
fn finish_run_rejects_truncated_success_only_when_configured() {
    let strict = CommandRunner::without_timeout();
    let error = strict.finish_run("cmd", output(0, true)).err().must("truncated output fails by default");
    assert_eq!(error.kind(), CommandErrorKind::OutputTruncated);
    assert!(error.output().is_some());

    let lenient = CommandRunner::without_timeout().fail_on_output_truncation(false);
    assert!(lenient.finish_run("cmd", output(0, true)).is_ok());
}

#[test]
fn signal_exit_is_unexpected() {
    let runner = CommandRunner::without_timeout();
    let killed = CommandOutput::new(ExitStatus::signaled(15), (Vec::new(), false, true), (Vec::new(), false, true), TimeSpan::zero());
    let error = runner.finish_run("cmd", killed).err().must("a signal is not a success");
    assert!(error.is_unexpected_exit());
    assert_eq!(error.exit_code(), None);
}

#[test]
fn cancellation_before_start_is_reported() {
    let runner = CommandRunner::without_timeout();
    let cancellation = CommandCancellation::new();
    assert!(runner.check_not_cancelled("cmd", Some(&cancellation)).is_ok());
    cancellation.cancel();
    assert!(cancellation.is_cancelled());
    let error = runner.check_not_cancelled("cmd", Some(&cancellation)).err().must("a cancelled run must not start");
    assert_eq!(error.kind(), CommandErrorKind::CancelledBeforeStart);
    assert!(runner.check_not_cancelled("cmd", None).is_ok());
}

#[test]
fn process_tree_is_managed_with_timeout_or_cancellation() {
    assert!(CommandRunner::new(TimeSpan::from_secs(1)).manages_process_tree(false));
    assert!(CommandRunner::without_timeout().manages_process_tree(true));
    assert!(!CommandRunner::without_timeout().manages_process_tree(false));
}

#[test]
fn run_options_record_their_configuration() {
    let options = CommandRunOptions::new()
        .cancellation(CommandCancellation::new())
        .tee_stdout_to_file(PathBuf::from("out.log"));
    assert!(options.configured_cancellation().is_some());
    assert_eq!(options.configured_stdout_file().map(PathBuf::as_path), Some(Path::new("out.log")));
    assert!(options.configured_stderr_file().is_none());
    assert_eq!(
        options.debug_text(),
        "CommandRunOptions { cancellation_configured: true, stdout_file: Some(\"<redacted path>\"), stderr_file: None }"
    );
    let parts = options.into_parts();
    assert!(parts.cancellation.is_some());
    assert_eq!(parts.stdout_file, Some(PathBuf::from("out.log")));
    assert!(parts.stderr_file.is_none());
}

#[test]
fn environment_assignments_replace_and_removals_cancel() {
    let command = Command::new("env").env("A", "1").env("B", "2").env("A", "3").env_remove("B");
    let envs = command.environment();
    assert_eq!(envs.len(), 1);
    assert_eq!(envs[0], (b"A".to_vec(), b"3".to_vec()));
    assert_eq!(command.removed_environment(), &[b"B".to_vec()]);

    let reassigned = command.env("B", "4");
    assert!(reassigned.removed_environment().is_empty());
    assert!(reassigned.environment().contains(&(b"B".to_vec(), b"4".to_vec())));

    let cleared = reassigned.env_clear();
    assert!(cleared.clears_environment());
    assert!(cleared.environment().is_empty());
    assert!(cleared.removed_environment().is_empty());
}

#[test]
fn arguments_keep_order_and_sensitivity() {
    let command = Command::new("tool").arg("a").sensitive_arg("secret").args(&["b", "c"]).args_os(&[b"d"]);
    assert_eq!(command.argument_count(), 5);
    assert_eq!(command.arguments(), vec![b"a".to_vec(), b"secret".to_vec(), b"b".to_vec(), b"c".to_vec(), b"d".to_vec()]);
    let argv = command.argv_for_display();
    assert_eq!(argv[0], (b"tool".to_vec(), false));
    assert_eq!(argv[2], (b"secret".to_vec(), true));
}

#[test]
fn shell_command_line_is_hidden_from_display() {
    let command = Command::shell("echo hidden-token");
    assert_eq!(command.program(), b"sh");
    assert_eq!(command.shell_payload_arg_index(), Some(1));
    let argv = command.argv_for_display();
    assert_eq!(argv.len(), 3);
    assert_eq!(argv[1].0, b"-c".to_vec());
    assert_eq!(argv[2].0, b"<shell command>".to_vec());
    assert_eq!(Command::new("sh").arg("-x").shell_payload_arg_index(), None);
}

#[test]
fn stdin_configuration_is_the_last_one_chosen() {
    let command = Command::new("cat").stdin_bytes(b"input".to_vec());
    assert!(matches!(command.into_stdin_configuration(), CommandStdin::Bytes(bytes) if bytes == b"input"));
    let command = Command::new("cat").stdin_bytes(b"x".to_vec()).stdin_file(PathBuf::from("in.txt"));
    assert!(matches!(command.into_stdin_configuration(), CommandStdin::File(path) if path == Path::new("in.txt")));
    assert!(matches!(Command::new("cat").into_stdin_configuration(), CommandStdin::Null));
}

#[test]
fn output_text_decodes_utf8_strictly_or_lossily() {
    let output = CommandOutput::new(
        ExitStatus::exited(0),
        ("héllo".as_bytes().to_vec(), false, true),
        (vec![0x66, 0xff, 0x6f], false, true),
        TimeSpan::zero(),
    );
    assert_eq!(output.stdout_text().must("valid UTF-8"), "héllo");
    assert!(output.stderr_text().is_err());
    assert_eq!(output.stderr_lossy_text(), "f\u{fffd}o");
}

#[test]
fn time_spans_compare_and_subtract_without_underflow() {
    let a = TimeSpan::from_millis(1500);
    let b = TimeSpan::from_secs(2);
    assert_eq!(a.as_secs(), 1);
    assert_eq!(a.subsec_nanos(), 500_000_000);
    assert_eq!(a.saturating_sub(b), TimeSpan::zero());
    assert_eq!(b.saturating_sub(a).as_nanos(), 500_000_000);
    assert_eq!(a.min(b), a);
    assert!(b.is_at_least(&a));
    assert!(!a.is_at_least(&b));
    assert_eq!(TimeSpan::from_micros(3).as_nanos(), 3_000);
    assert_eq!(TimeSpan::from_parts(1, 5).as_nanos(), 1_000_000_005);
    assert_eq!(a.debug_text(), "1.5s");
}

#[test]
fn lexical_normalization_drops_dots_and_resolves_parents() {
    assert_eq!(normalize_lexically(parts("/a/./b/../c")), parts("/a/c"));
    assert_eq!(normalize_lexically(parts("/../x")), parts("/x"));
    assert_eq!(normalize_lexically(parts("a/b/../../..")), Vec::<PathPart>::new());
    let once = normalize_lexically(parts("/a/b/./../c/"));
    assert_eq!(normalize_lexically(once.clone()), once);
}

#[test]
fn normalized_paths_conflict_in_documented_order() {
    let input = Some((PathBuf::from("in"), parts("/data/file")));
    let stdout = Some((PathBuf::from("out"), parts("/data/file")));
    let stderr = Some((PathBuf::from("err"), parts("/data/file")));
    let error = validate_normalized_paths("cmd", input.clone(), stdout.clone(), stderr.clone()).err().must("conflict");
    assert!(matches!(
        error.reason(),
        CommandErrorReason::InputOutputConflict { input_path, output_stream: OutputStream::Stdout, output_path }
            if input_path == Path::new("in") && output_path == Path::new("out")
    ));

    let error = validate_normalized_paths("cmd", None, stdout, stderr).err().must("outputs conflict");
    assert_eq!(error.kind(), CommandErrorKind::OutputFilesConflict);

    let other = Some((PathBuf::from("err"), parts("/data/other")));
    let error = validate_normalized_paths("cmd", input, None, other.clone()).err();
    assert!(error.is_none());
    assert!(validate_normalized_paths("cmd", None, None, other).is_ok());
}

#[test]
fn identical_open_files_conflict() {
    let same = FileIdentity { volume: 1, index: 42 };
    let different = FileIdentity { volume: 1, index: 43 };
    let error = validate_file_identities(
        "cmd",
        Some((PathBuf::from("in"), same)),
        Some((PathBuf::from("out"), different)),
        Some((PathBuf::from("err"), same)),
    )
    .err().must("stdin and stderr are the same file");
    assert!(matches!(
        error.reason(),
        CommandErrorReason::InputOutputConflict { output_stream: OutputStream::Stderr, .. }
    ));
    assert!(validate_file_identities("cmd", Some((PathBuf::from("in"), same)), Some((PathBuf::from("out"), different)), None).is_ok());
}

#[test]
fn inspection_outcomes_are_judged() {
    let not_found = || IoFailure::new(IoFailureKind::NotFound, Some(2), "not found".to_string());
    let denied = || IoFailure::new(IoFailureKind::Other, Some(13), "denied".to_string());
    let path = || PathBuf::from("tee.log");

    assert!(check_output_path("cmd", OutputStream::Stdout, path(), Ok(true), Ok(())).is_ok());
    assert!(check_output_path("cmd", OutputStream::Stdout, path(), Err(not_found()), Err(not_found())).is_ok());
    let dangling = check_output_path("cmd", OutputStream::Stdout, path(), Err(not_found()), Ok(())).err().must("dangling link");
    assert_eq!(dangling.kind(), CommandErrorKind::NonRegularOutputFile);
    let directory = check_output_path("cmd", OutputStream::Stderr, path(), Ok(false), Ok(())).err().must("directory");
    assert_eq!(directory.kind(), CommandErrorKind::NonRegularOutputFile);
    let inspect = check_output_path("cmd", OutputStream::Stdout, path(), Err(denied()), Ok(())).err().must("denied");
    assert_eq!(inspect.kind(), CommandErrorKind::InspectIoFileFailed);

    assert!(check_regular_input("cmd", PathBuf::from("in"), Ok(true)).is_ok());
    assert_eq!(
        check_regular_input("cmd", PathBuf::from("in"), Ok(false)).err().must("fifo").kind(),
        CommandErrorKind::NonRegularInputFile
    );
    assert_eq!(
        check_regular_input("cmd", PathBuf::from("in"), Err(not_found())).err().must("missing").kind(),
        CommandErrorKind::OpenInputFailed
    );
}

#[test]
fn missing_paths_are_normalized_lexically() {
    let not_found = IoFailure::new(IoFailureKind::NotFound, Some(2), "not found".to_string());
    let chosen = choose_normalized_path("cmd", PathBuf::from("x"), parts("/w/./x/../y"), Err(not_found)).must("lexical");
    assert_eq!(chosen, parts("/w/y"));
    let canonical = choose_normalized_path("cmd", PathBuf::from("x"), parts("/w/x"), Ok(parts("/real/x"))).must("canonical");
    assert_eq!(canonical, parts("/real/x"));
    let denied = IoFailure::new(IoFailureKind::Other, Some(13), "denied".to_string());
    let error = choose_normalized_path("cmd", PathBuf::from("x"), parts("/w/x"), Err(denied)).err().must("inspection");
    assert_eq!(error.kind(), CommandErrorKind::InspectIoFileFailed);
}

#[test]
fn display_command_hides_sensitive_arguments() {
    let runner = CommandRunner::without_timeout();
    let text = Command::new("login").arg("--user").sensitive_arg("hunter2").display_command(runner.configured_diagnostic_redaction_policy());
    assert!(!text.contains("hunter2"));
    assert!(text.contains("login"));
}

#[test]
fn runner_debug_text_hides_the_working_directory() {
    let runner = CommandRunner::new(TimeSpan::from_millis(1500)).working_directory(PathBuf::from("/secret/dir")).max_stderr_bytes(7);
    let text = runner.debug_text();
    assert!(text.starts_with("CommandRunner { timeout: Some(1.5s), timer: \"<dyn Timer>\", working_directory: Some(\"<redacted path>\"), success_exit_codes: [0], disable_logging: false, fail_on_output_truncation: true, diagnostic_redaction_policy: "));
    assert!(text.ends_with("max_stdout_bytes: Some(1048576), max_stderr_bytes: Some(7) }"));
    assert!(!text.contains("/secret/dir"));
}

#[test]
fn display_command_lists_environment_changes() {
    let runner = CommandRunner::without_timeout();
    let text = Command::new("tool")
        .env("TOKEN_NAME", "visible")
        .env_remove("OLD")
        .display_command(runner.configured_diagnostic_redaction_policy());
    assert!(text.starts_with("Command { env: "));
    assert!(text.contains(", unset: [\"OLD\"], argv: "));
    assert!(text.ends_with(" }"));
}

#[test]
fn display_from_parts_without_environment_changes_is_the_argument_text() {
    let command = Command::new("tool").arg("--flag");
    assert_eq!(command.display_from_parts("ignored", "tool --flag"), "tool --flag");
}

#[test]
fn display_from_parts_with_environment_changes_lists_them() {
    let command = Command::new("tool").env("A", "1").env_remove("OLD").env_remove("GONE");
    assert_eq!(
        command.display_from_parts("A=<masked>", "tool"),
        "Command { env: A=<masked>, unset: [\"OLD\", \"GONE\"], argv: tool }"
    );
}
