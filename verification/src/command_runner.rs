//! Process-level run configuration, and the judgement of a finished run.

use qubit_redact::RedactionPolicy;
use std::path::PathBuf;
use vstd::prelude::*;

use crate::CommandCancellation;
use crate::CommandError;
use crate::CommandErrorReason;
use crate::CommandOutput;
use crate::TimeSpan;

verus! {

/// Default capture limit per output stream: 1 MiB.
pub const DEFAULT_MAX_OUTPUT_BYTES_PER_STREAM: usize = 1_048_576;

/// Lets the diagnostic redaction policy stand in fields and signatures; the
/// library never reads it.
#[verifier::external_type_specification]
#[verifier::external_body]
pub struct ExRedactionPolicy(RedactionPolicy);

/// Lets runners be cloned; the derived clone of the policy copies its
/// rules, and nothing more is stated of the copy.
pub assume_specification[ <RedactionPolicy as Clone>::clone ](policy: &RedactionPolicy) -> RedactionPolicy;

/// Returns the policy of qubit-redact's standard redactor
/// (`qubit_redact::Redactor::default().policy().clone()`).
///
/// That policy is a fixed built-in; its value is opaque here, so nothing is
/// stated about it.
#[verifier::external_body]
fn default_redaction_policy() -> RedactionPolicy {
    qubit_redact::Redactor::default().policy().clone()
}

/// Process-level defaults for running commands: timeout, default working
/// directory, successful exit codes, logging, capture limits and the policy
/// used to redact diagnostics.
#[derive(Clone)]
pub struct CommandRunner {
    timeout: Option<TimeSpan>,
    working_directory: Option<PathBuf>,
    success_exit_codes: Vec<i32>,
    disable_logging: bool,
    fail_on_output_truncation: bool,
    diagnostic_redaction_policy: RedactionPolicy,
    max_stdout_bytes: Option<usize>,
    max_stderr_bytes: Option<usize>,
}

/// Whether `code` is one of `codes`.
pub open spec fn contains_code(codes: Seq<i32>, code: i32) -> bool {
    exists|i: int| 0 <= i < codes.len() && codes[i] == code
}

impl CommandRunner {
    /// The configured timeout.
    pub closed spec fn spec_timeout(&self) -> Option<TimeSpan> {
        self.timeout
    }

    /// The default working directory.
    pub closed spec fn spec_working_directory(&self) -> Option<PathBuf> {
        self.working_directory
    }

    /// The exit codes that count as success.
    pub closed spec fn spec_success_exit_codes(&self) -> Seq<i32> {
        self.success_exit_codes@
    }

    /// Whether logging is disabled.
    pub closed spec fn spec_disable_logging(&self) -> bool {
        self.disable_logging
    }

    /// Whether truncated output of a successful run is an error.
    pub closed spec fn spec_fail_on_output_truncation(&self) -> bool {
        self.fail_on_output_truncation
    }

    /// The diagnostic redaction policy.
    pub closed spec fn spec_redaction_policy(&self) -> RedactionPolicy {
        self.diagnostic_redaction_policy
    }

    /// The stdout capture limit.
    pub closed spec fn spec_max_stdout_bytes(&self) -> Option<usize> {
        self.max_stdout_bytes
    }

    /// The stderr capture limit.
    pub closed spec fn spec_max_stderr_bytes(&self) -> Option<usize> {
        self.max_stderr_bytes
    }

    /// The configuration of a fresh runner with the given timeout.
    pub open spec fn is_fresh(&self, timeout: Option<TimeSpan>) -> bool {
        &&& self.spec_timeout() == timeout
        &&& self.spec_working_directory().is_none()
        &&& self.spec_success_exit_codes() == seq![0i32]
        &&& !self.spec_disable_logging()
        &&& self.spec_fail_on_output_truncation()
        &&& self.spec_max_stdout_bytes() == Some(DEFAULT_MAX_OUTPUT_BYTES_PER_STREAM)
        &&& self.spec_max_stderr_bytes() == Some(DEFAULT_MAX_OUTPUT_BYTES_PER_STREAM)
    }

    /// `self` equals `other` except, possibly, for the settings named.
    pub open spec fn same_except(
        &self,
        other: &CommandRunner,
        timeout: bool,
        working_directory: bool,
        codes: bool,
        logging: bool,
        truncation: bool,
        policy: bool,
        limits: bool,
    ) -> bool {
        &&& (timeout || self.spec_timeout() == other.spec_timeout())
        &&& (working_directory || self.spec_working_directory() == other.spec_working_directory())
        &&& (codes || self.spec_success_exit_codes() == other.spec_success_exit_codes())
        &&& (logging || self.spec_disable_logging() == other.spec_disable_logging())
        &&& (truncation || self.spec_fail_on_output_truncation() == other.spec_fail_on_output_truncation())
        &&& (policy || self.spec_redaction_policy() == other.spec_redaction_policy())
        &&& (limits || (self.spec_max_stdout_bytes() == other.spec_max_stdout_bytes()
            && self.spec_max_stderr_bytes() == other.spec_max_stderr_bytes()))
    }

    fn with_optional_timeout(timeout: Option<TimeSpan>) -> (runner: Self)
        ensures
            runner.is_fresh(timeout),
    {
        let mut codes: Vec<i32> = Vec::new();
        codes.push(0);
        CommandRunner {
            timeout,
            working_directory: None,
            success_exit_codes: codes,
            disable_logging: false,
            fail_on_output_truncation: true,
            diagnostic_redaction_policy: default_redaction_policy(),
            max_stdout_bytes: Some(DEFAULT_MAX_OUTPUT_BYTES_PER_STREAM),
            max_stderr_bytes: Some(DEFAULT_MAX_OUTPUT_BYTES_PER_STREAM),
        }
    }

    /// A runner that stops commands after `timeout`, accepts exit code 0,
    /// logs, captures at most 1 MiB per stream and fails on truncation.
    pub fn new(timeout: TimeSpan) -> (runner: Self)
        ensures
            runner.is_fresh(Some(timeout)),
    {
        Self::with_optional_timeout(Some(timeout))
    }

    /// A runner with the defaults of [`Self::new`] and no timeout.
    pub fn without_timeout() -> (runner: Self)
        ensures
            runner.is_fresh(None),
    {
        Self::with_optional_timeout(None)
    }

    /// Returns the configured timeout.
    pub fn configured_timeout(&self) -> (timeout: Option<TimeSpan>)
        ensures
            timeout == self.spec_timeout(),
    {
        self.timeout
    }

    /// Returns the default working directory.
    pub fn configured_working_directory(&self) -> (directory: Option<&PathBuf>)
        ensures
            directory.is_some() == self.spec_working_directory().is_some(),
            directory.is_some() ==> *directory.unwrap() == self.spec_working_directory().unwrap(),
    {
        match &self.working_directory {
            Some(directory) => Some(directory),
            None => None,
        }
    }

    /// Sets the working directory used by commands that do not set one.
    pub fn working_directory(self, working_directory: PathBuf) -> (runner: Self)
        ensures
            runner.spec_working_directory() == Some(working_directory),
            runner.same_except(&self, false, true, false, false, false, false, false),
    {
        CommandRunner { working_directory: Some(working_directory), ..self }
    }

    /// Returns the exit codes that count as success.
    pub fn configured_success_exit_codes(&self) -> (codes: &[i32])
        ensures
            codes@ == self.spec_success_exit_codes(),
    {
        self.success_exit_codes.as_slice()
    }

    /// Accepts exactly one exit code as success.
    pub fn success_exit_code(self, exit_code: i32) -> (runner: Self)
        ensures
            runner.spec_success_exit_codes() == seq![exit_code],
            runner.same_except(&self, false, false, true, false, false, false, false),
    {
        let mut codes: Vec<i32> = Vec::new();
        codes.push(exit_code);
        proof {
            assert(codes@ =~= seq![exit_code]);
        }
        CommandRunner { success_exit_codes: codes, ..self }
    }

    /// Accepts exactly the given exit codes as success.
    pub fn success_exit_codes(self, exit_codes: &[i32]) -> (runner: Self)
        ensures
            runner.spec_success_exit_codes() == exit_codes@,
            runner.same_except(&self, false, false, true, false, false, false, false),
    {
        CommandRunner { success_exit_codes: vstd::slice::slice_to_vec(exit_codes), ..self }
    }

    /// Whether command logging is disabled.
    pub fn is_logging_disabled(&self) -> (disabled: bool)
        ensures
            disabled == self.spec_disable_logging(),
    {
        self.disable_logging
    }

    /// Enables or disables command logging.
    pub fn disable_logging(self, disable_logging: bool) -> (runner: Self)
        ensures
            runner.spec_disable_logging() == disable_logging,
            runner.same_except(&self, false, false, false, true, false, false, false),
    {
        CommandRunner { disable_logging, ..self }
    }

    /// Whether truncated output of a successful run is an error.
    pub fn is_output_truncation_failure_enabled(&self) -> (enabled: bool)
        ensures
            enabled == self.spec_fail_on_output_truncation(),
    {
        self.fail_on_output_truncation
    }

    /// Chooses whether truncated output of a successful run is an error.
    pub fn fail_on_output_truncation(self, fail_on_output_truncation: bool) -> (runner: Self)
        ensures
            runner.spec_fail_on_output_truncation() == fail_on_output_truncation,
            runner.same_except(&self, false, false, false, false, true, false, false),
    {
        CommandRunner { fail_on_output_truncation, ..self }
    }

    /// Returns the policy used to redact diagnostics.
    pub fn configured_diagnostic_redaction_policy(&self) -> (policy: &RedactionPolicy)
        ensures
            *policy == self.spec_redaction_policy(),
    {
        &self.diagnostic_redaction_policy
    }

    /// Sets the policy used to redact diagnostics.
    pub fn diagnostic_redaction_policy(self, policy: RedactionPolicy) -> (runner: Self)
        ensures
            runner.spec_redaction_policy() == policy,
            runner.same_except(&self, false, false, false, false, false, true, false),
    {
        CommandRunner { diagnostic_redaction_policy: policy, ..self }
    }

    /// Returns the stdout capture limit.
    pub fn configured_max_stdout_bytes(&self) -> (limit: Option<usize>)
        ensures
            limit == self.spec_max_stdout_bytes(),
    {
        self.max_stdout_bytes
    }

    /// Limits captured stdout to `max_bytes`.
    pub fn max_stdout_bytes(self, max_bytes: usize) -> (runner: Self)
        ensures
            runner.spec_max_stdout_bytes() == Some(max_bytes),
            runner.spec_max_stderr_bytes() == self.spec_max_stderr_bytes(),
            runner.same_except(&self, false, false, false, false, false, false, true),
    {
        CommandRunner { max_stdout_bytes: Some(max_bytes), ..self }
    }

    /// Returns the stderr capture limit.
    pub fn configured_max_stderr_bytes(&self) -> (limit: Option<usize>)
        ensures
            limit == self.spec_max_stderr_bytes(),
    {
        self.max_stderr_bytes
    }

    /// Limits captured stderr to `max_bytes`.
    pub fn max_stderr_bytes(self, max_bytes: usize) -> (runner: Self)
        ensures
            runner.spec_max_stderr_bytes() == Some(max_bytes),
            runner.spec_max_stdout_bytes() == self.spec_max_stdout_bytes(),
            runner.same_except(&self, false, false, false, false, false, false, true),
    {
        CommandRunner { max_stderr_bytes: Some(max_bytes), ..self }
    }

    /// Limits both captured streams to `max_bytes` each.
    pub fn max_output_bytes(self, max_bytes: usize) -> (runner: Self)
        ensures
            runner.spec_max_stdout_bytes() == Some(max_bytes),
            runner.spec_max_stderr_bytes() == Some(max_bytes),
            runner.same_except(&self, false, false, false, false, false, false, true),
    {
        CommandRunner { max_stdout_bytes: Some(max_bytes), max_stderr_bytes: Some(max_bytes), ..self }
    }

    /// Limits both streams to `max_bytes` each and makes truncation of a
    /// successful run an error.
    pub fn bounded_output(self, max_bytes: usize) -> (runner: Self)
        ensures
            runner.spec_max_stdout_bytes() == Some(max_bytes),
            runner.spec_max_stderr_bytes() == Some(max_bytes),
            runner.spec_fail_on_output_truncation(),
            runner.same_except(&self, false, false, false, false, true, false, true),
    {
        CommandRunner {
            max_stdout_bytes: Some(max_bytes),
            max_stderr_bytes: Some(max_bytes),
            fail_on_output_truncation: true,
            ..self
        }
    }

    /// Captures both streams without limit and never fails on truncation.
    pub fn unbounded_output(self) -> (runner: Self)
        ensures
            runner.spec_max_stdout_bytes().is_none(),
            runner.spec_max_stderr_bytes().is_none(),
            !runner.spec_fail_on_output_truncation(),
            runner.same_except(&self, false, false, false, false, true, false, true),
    {
        CommandRunner {
            max_stdout_bytes: None,
            max_stderr_bytes: None,
            fail_on_output_truncation: false,
            ..self
        }
    }

    /// Whether runs place the child in its own process tree, to be
    /// terminated as a whole: when a timeout or a cancellation handle may
    /// require termination.
    pub fn manages_process_tree(&self, has_cancellation: bool) -> (managed: bool)
        ensures
            managed == (self.spec_timeout().is_some() || has_cancellation),
    {
        self.timeout.is_some() || has_cancellation
    }

    /// Whether `code` counts as success.
    pub fn is_success_exit_code(&self, code: i32) -> (success: bool)
        ensures
            success == contains_code(self.spec_success_exit_codes(), code),
    {
        let codes = &self.success_exit_codes;
        let mut index: usize = 0;
        while index < codes.len()
            invariant
                codes@ == self.spec_success_exit_codes(),
                index <= codes@.len(),
                forall|i: int| 0 <= i < index ==> codes@[i] != code,
            decreases codes@.len() - index,
        {
            if codes[index] == code {
                return true;
            }
            index = index + 1;
        }
        false
    }

    /// Judges the output of a finished run.
    ///
    /// A run succeeds when the process exited with a configured success
    /// code; it then fails with `OutputTruncated` (keeping the output) only
    /// when truncation failures are enabled and either stream was
    /// truncated. Any other exit, including termination by a signal, fails
    /// with `UnexpectedExit`, recording the observed code and the expected
    /// codes and keeping the output.
    pub fn finish_run(&self, command: &str, output: CommandOutput) -> (result: Result<CommandOutput, CommandError>)
        ensures
            match output.spec_status().spec_code() {
                Some(code) if contains_code(self.spec_success_exit_codes(), code) =>
                    if self.spec_fail_on_output_truncation() && (output.spec_stdout_truncated()
                        || output.spec_stderr_truncated()) {
                    match result {
                        Err(error) => error.spec_command() == command@ && error.spec_reason()
                            == CommandErrorReason::OutputTruncated && error.spec_output() == Some(output)
                            && error.spec_cleanup_failures().len() == 0,
                        Ok(_) => false,
                    }
                } else {
                    result == Ok::<CommandOutput, CommandError>(output)
                },
                _ => match result {
                    Err(error) => {
                        &&& error.spec_command() == command@
                        &&& error.spec_reason() is UnexpectedExit
                        &&& error.spec_reason()->exit_code == output.spec_status().spec_code()
                        &&& error.spec_reason()->expected@ == self.spec_success_exit_codes()
                        &&& error.spec_output() == Some(output)
                        &&& error.spec_cleanup_failures().len() == 0
                    },
                    Ok(_) => false,
                },
            },
    {
        let succeeded = match output.exit_code() {
            Some(code) => self.is_success_exit_code(code),
            None => false,
        };
        if succeeded {
            if self.fail_on_output_truncation && (output.stdout_truncated() || output.stderr_truncated()) {
                Err(CommandError::from_reason(command, CommandErrorReason::OutputTruncated, Some(Box::new(output))))
            } else {
                Ok(output)
            }
        } else {
            let exit_code = output.exit_code();
            let expected = vstd::slice::slice_to_vec(self.success_exit_codes.as_slice());
            Err(CommandError::from_reason(
                command,
                CommandErrorReason::UnexpectedExit { exit_code, expected },
                Some(Box::new(output)),
            ))
        }
    }

    /// Refuses to start a run whose cancellation was already requested.
    ///
    /// Whether the handle reports cancellation depends on other threads, so
    /// the contract states what holds either way: without a handle the run
    /// may start, and a refusal is always a `CancelledBeforeStart` error.
    pub fn check_not_cancelled(
        &self,
        command: &str,
        cancellation: Option<&CommandCancellation>,
    ) -> (result: Result<(), CommandError>)
        ensures
            cancellation.is_none() ==> result.is_ok(),
            match result {
                Err(error) => error.spec_command() == command@ && error.spec_reason()
                    == CommandErrorReason::CancelledBeforeStart && error.spec_output().is_none()
                    && error.spec_cleanup_failures().len() == 0,
                Ok(()) => true,
            },
    {
        match cancellation {
            Some(cancellation) => {
                if cancellation.is_cancelled() {
                    Err(CommandError::from_reason(command, CommandErrorReason::CancelledBeforeStart, None))
                } else {
                    Ok(())
                }
            },
            None => Ok(()),
        }
    }
}

} // verus!
