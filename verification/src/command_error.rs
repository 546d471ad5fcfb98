//! Public command execution error container.

use vstd::prelude::*;

use crate::command_cleanup_failure::canonical_order;
use crate::command_cleanup_failure::sort_cleanup_failures;
use crate::command_error_reason::reason_kind;
use crate::CommandCleanupFailure;
use crate::CommandErrorKind;
use crate::CommandErrorReason;
use crate::CommandOutput;
use crate::IoFailure;
use crate::OutputStream;
use crate::TimeFailure;

verus! {

/// Error returned while preparing, spawning, waiting for, or collecting a
/// command: the redacted command text, the primary reason, the output
/// retained when the failure left some, and the cleanup failures observed
/// afterwards in canonical resource order.
pub struct CommandError {
    command: String,
    reason: Box<CommandErrorReason>,
    output: Option<Box<CommandOutput>>,
    cleanup_failures: Vec<CommandCleanupFailure>,
}

/// The cleanup failure that a helper's primary reason becomes when another
/// failure is primary: time, stdin and stream failures have one; every other
/// reason has none.
pub open spec fn helper_cleanup_failure(reason: CommandErrorReason) -> Option<CommandCleanupFailure> {
    match reason {
        CommandErrorReason::TimeFailed { source } => Some(CommandCleanupFailure::Time { source }),
        CommandErrorReason::WriteInputFailed { source } => Some(CommandCleanupFailure::Stdin { source }),
        CommandErrorReason::ReadOutputFailed { stream, source } => match stream {
            OutputStream::Stdout => Some(CommandCleanupFailure::StdoutRead { source }),
            OutputStream::Stderr => Some(CommandCleanupFailure::StderrRead { source }),
        },
        CommandErrorReason::WriteOutputFailed { stream, path, source } => match stream {
            OutputStream::Stdout => Some(CommandCleanupFailure::StdoutWrite { path, source }),
            OutputStream::Stderr => Some(CommandCleanupFailure::StderrWrite { path, source }),
        },
        _ => None,
    }
}

/// The sequence holding the helper failure of `reason`, if it has one.
pub open spec fn helper_cleanup_prefix(reason: CommandErrorReason) -> Seq<CommandCleanupFailure> {
    match helper_cleanup_failure(reason) {
        Some(failure) => seq![failure],
        None => seq![],
    }
}

/// The source of the first process-tree termination failure in `failures`.
pub open spec fn first_tree_source(failures: Seq<CommandCleanupFailure>) -> Option<IoFailure>
    decreases failures.len(),
{
    if failures.len() == 0 {
        None
    } else {
        match failures[0] {
            CommandCleanupFailure::ProcessTreeTermination { source } => Some(source),
            _ => first_tree_source(failures.drop_first()),
        }
    }
}

/// The source of the first direct-child termination failure in `failures`.
pub open spec fn first_child_source(failures: Seq<CommandCleanupFailure>) -> Option<IoFailure>
    decreases failures.len(),
{
    if failures.len() == 0 {
        None
    } else {
        match failures[0] {
            CommandCleanupFailure::ChildTermination { source } => Some(source),
            _ => first_child_source(failures.drop_first()),
        }
    }
}

/// The underlying failure of an error's primary reason.
#[derive(Debug)]
pub enum ErrorSource<'a> {
    /// An operating-system I/O failure.
    Io(&'a IoFailure),
    /// A clock or timer failure.
    Time(&'a TimeFailure),
}

/// The underlying failure of a primary reason, if it has one.
pub open spec fn reason_source<'a>(reason: &'a CommandErrorReason) -> Option<ErrorSource<'a>> {
    match reason {
        CommandErrorReason::SpawnFailed { source } => Some(ErrorSource::Io(source)),
        CommandErrorReason::WaitFailed { source } => Some(ErrorSource::Io(source)),
        CommandErrorReason::ReadOutputFailed { source, .. } => Some(ErrorSource::Io(source)),
        CommandErrorReason::OpenInputFailed { source, .. } => Some(ErrorSource::Io(source)),
        CommandErrorReason::OpenOutputFailed { source, .. } => Some(ErrorSource::Io(source)),
        CommandErrorReason::InspectIoFileFailed { source, .. } => Some(ErrorSource::Io(source)),
        CommandErrorReason::StartInputThreadFailed { source } => Some(ErrorSource::Io(source)),
        CommandErrorReason::StartOutputThreadFailed { source, .. } => Some(ErrorSource::Io(source)),
        CommandErrorReason::WriteInputFailed { source } => Some(ErrorSource::Io(source)),
        CommandErrorReason::WriteOutputFailed { source, .. } => Some(ErrorSource::Io(source)),
        CommandErrorReason::TimeFailed { source } => Some(ErrorSource::Time(source)),
        _ => None,
    }
}

impl CommandError {
    /// The redacted command text.
    pub closed spec fn spec_command(&self) -> Seq<char> {
        self.command@
    }

    /// The primary reason.
    pub closed spec fn spec_reason(&self) -> CommandErrorReason {
        *self.reason
    }

    /// The retained output, if any.
    pub closed spec fn spec_output(&self) -> Option<CommandOutput> {
        match self.output {
            Some(output) => Some(*output),
            None => None,
        }
    }

    /// The cleanup failures, in reporting order.
    pub closed spec fn spec_cleanup_failures(&self) -> Seq<CommandCleanupFailure> {
        self.cleanup_failures@
    }

    /// The stable category of the primary reason.
    pub open spec fn spec_kind(&self) -> CommandErrorKind {
        reason_kind(self.spec_reason())
    }

    /// Creates an error from a command text, a primary reason and the
    /// output retained by that failure, with no cleanup failures.
    pub fn from_reason(command: &str, reason: CommandErrorReason, output: Option<Box<CommandOutput>>) -> (error: Self)
        ensures
            error.spec_command() == command@,
            error.spec_reason() == reason,
            error.spec_output() == (match output {
                Some(output) => Some(*output),
                None => None::<CommandOutput>,
            }),
            error.spec_cleanup_failures() == Seq::<CommandCleanupFailure>::empty(),
    {
        CommandError {
            command: String::from_str(command),
            reason: Box::new(reason),
            output,
            cleanup_failures: Vec::new(),
        }
    }

    /// Adds cleanup failures and restores canonical resource order: process
    /// tree, direct child, wait, time, stdout, stderr, stdin, stable within
    /// each resource.
    pub fn with_cleanup_failures(self, failures: Vec<CommandCleanupFailure>) -> (error: Self)
        ensures
            error.spec_command() == self.spec_command(),
            error.spec_reason() == self.spec_reason(),
            error.spec_output() == self.spec_output(),
            error.spec_cleanup_failures() == canonical_order(self.spec_cleanup_failures() + failures@),
            canonical_order(error.spec_cleanup_failures()) == error.spec_cleanup_failures(),
    {
        let CommandError { command, reason, output, cleanup_failures } = self;
        let mut all = cleanup_failures;
        let mut added = failures;
        all.append(&mut added);
        let ghost combined = all@;
        let sorted = sort_cleanup_failures(all);
        proof {
            crate::command_cleanup_failure::lemma_canonical_order_idempotent(combined);
        }
        CommandError { command, reason, output, cleanup_failures: sorted }
    }

    /// Attaches captured output without changing the primary reason.
    pub fn with_output(self, output: CommandOutput) -> (error: Self)
        ensures
            error.spec_command() == self.spec_command(),
            error.spec_reason() == self.spec_reason(),
            error.spec_output() == Some(output),
            error.spec_cleanup_failures() == self.spec_cleanup_failures(),
    {
        let CommandError { command, reason, cleanup_failures, .. } = self;
        CommandError { command, reason, output: Some(Box::new(output)), cleanup_failures }
    }

    /// Converts a helper error into its cleanup representation, or `None`
    /// when its primary reason has none.
    pub fn into_cleanup_failure(self) -> (failure: Option<CommandCleanupFailure>)
        ensures
            failure == helper_cleanup_failure(self.spec_reason()),
    {
        reason_into_cleanup_failure(*self.reason)
    }

    /// Converts this error into cleanup failures: the primary reason first
    /// when it is a helper failure, then the existing cleanup failures in
    /// their order.
    pub fn into_cleanup_failures(self) -> (failures: Vec<CommandCleanupFailure>)
        ensures
            failures@ == helper_cleanup_prefix(self.spec_reason()) + self.spec_cleanup_failures(),
    {
        let CommandError { reason, cleanup_failures, .. } = self;
        let mut failures: Vec<CommandCleanupFailure> = Vec::new();
        match reason_into_cleanup_failure(*reason) {
            Some(failure) => failures.push(failure),
            None => {},
        }
        let mut rest = cleanup_failures;
        let ghost prefix = failures@;
        failures.append(&mut rest);
        failures
    }

    /// Merges a secondary error that arose while finalizing, keeping this
    /// error's primary reason: this error's output is kept when present and
    /// otherwise taken from `error`; the secondary error's helper reason and
    /// cleanup failures are recorded as cleanup failures.
    pub fn with_finalization_error(self, error: CommandError) -> (merged: Self)
        ensures
            merged.spec_command() == self.spec_command(),
            merged.spec_reason() == self.spec_reason(),
            merged.spec_output() == (if self.spec_output().is_some() {
                self.spec_output()
            } else {
                error.spec_output()
            }),
            merged.spec_cleanup_failures() == canonical_order(
                self.spec_cleanup_failures() + helper_cleanup_prefix(error.spec_reason())
                    + error.spec_cleanup_failures(),
            ),
    {
        let CommandError { command, reason, output, cleanup_failures } = self;
        let CommandError {
            command: other_command,
            reason: other_reason,
            output: other_output,
            cleanup_failures: other_failures,
        } = error;
        let output = match output {
            Some(output) => Some(output),
            None => other_output,
        };
        let secondary = CommandError {
            command: other_command,
            reason: other_reason,
            output: None,
            cleanup_failures: other_failures,
        };
        let failures = secondary.into_cleanup_failures();
        let merged = CommandError { command, reason, output, cleanup_failures };
        let result = merged.with_cleanup_failures(failures);
        proof {
            assert(self.spec_cleanup_failures() + (helper_cleanup_prefix(error.spec_reason())
                + error.spec_cleanup_failures()) =~= self.spec_cleanup_failures()
                + helper_cleanup_prefix(error.spec_reason()) + error.spec_cleanup_failures());
        }
        result
    }

    /// Returns the redacted command text.
    pub fn command(&self) -> (command: &str)
        ensures
            command@ == self.spec_command(),
    {
        self.command.as_str()
    }

    /// Returns the stable category of the primary reason.
    pub fn kind(&self) -> (kind: CommandErrorKind)
        ensures
            kind == self.spec_kind(),
    {
        self.reason.kind()
    }

    /// Returns the primary reason.
    pub fn reason(&self) -> (reason: &CommandErrorReason)
        ensures
            *reason == self.spec_reason(),
    {
        &self.reason
    }

    /// Returns the retained output, if any.
    pub fn output(&self) -> (output: Option<&CommandOutput>)
        ensures
            output.is_some() == self.spec_output().is_some(),
            output.is_some() ==> *output.unwrap() == self.spec_output().unwrap(),
    {
        match &self.output {
            Some(output) => Some(&**output),
            None => None,
        }
    }

    /// Consumes the error and returns the retained output, if any.
    pub fn into_output(self) -> (output: Option<CommandOutput>)
        ensures
            output == self.spec_output(),
    {
        match self.output {
            Some(output) => Some(*output),
            None => None,
        }
    }

    /// Returns every cleanup failure, in canonical resource order.
    pub fn cleanup_failures(&self) -> (failures: &[CommandCleanupFailure])
        ensures
            failures@ == self.spec_cleanup_failures(),
    {
        self.cleanup_failures.as_slice()
    }

    /// Returns the observed exit code: the one recorded by an unexpected
    /// exit, otherwise that of the retained output.
    pub fn exit_code(&self) -> (code: Option<i32>)
        ensures
            code == (match self.spec_reason() {
                CommandErrorReason::UnexpectedExit { exit_code, .. } => exit_code,
                _ => match self.spec_output() {
                    Some(output) => output.spec_status().spec_code(),
                    None => None,
                },
            }),
    {
        match &*self.reason {
            CommandErrorReason::UnexpectedExit { exit_code, .. } => *exit_code,
            _ => match &self.output {
                Some(output) => output.exit_code(),
                None => None,
            },
        }
    }

    /// Whether the primary reason is an unexpected exit.
    pub fn is_unexpected_exit(&self) -> (unexpected: bool)
        ensures
            unexpected == (self.spec_kind() == CommandErrorKind::UnexpectedExit),
    {
        match &*self.reason {
            CommandErrorReason::UnexpectedExit { .. } => true,
            _ => false,
        }
    }

    /// Returns the underlying failure of the primary reason, if it has one:
    /// the I/O failure of a spawn, wait, read, open, inspection, helper-start
    /// or write failure, or the clock failure of a time failure.
    pub fn source(&self) -> (source: Option<ErrorSource<'_>>)
        ensures
            source == reason_source(&self.spec_reason()),
    {
        match &*self.reason {
            CommandErrorReason::SpawnFailed { source } => Some(ErrorSource::Io(source)),
            CommandErrorReason::WaitFailed { source } => Some(ErrorSource::Io(source)),
            CommandErrorReason::ReadOutputFailed { source, .. } => Some(ErrorSource::Io(source)),
            CommandErrorReason::OpenInputFailed { source, .. } => Some(ErrorSource::Io(source)),
            CommandErrorReason::OpenOutputFailed { source, .. } => Some(ErrorSource::Io(source)),
            CommandErrorReason::InspectIoFileFailed { source, .. } => Some(ErrorSource::Io(source)),
            CommandErrorReason::StartInputThreadFailed { source } => Some(ErrorSource::Io(source)),
            CommandErrorReason::StartOutputThreadFailed { source, .. } => Some(ErrorSource::Io(source)),
            CommandErrorReason::WriteInputFailed { source } => Some(ErrorSource::Io(source)),
            CommandErrorReason::WriteOutputFailed { source, .. } => Some(ErrorSource::Io(source)),
            CommandErrorReason::TimeFailed { source } => Some(ErrorSource::Time(source)),
            _ => None,
        }
    }

    /// Returns the first process-tree termination source among the cleanup
    /// failures.
    pub fn process_tree_source(&self) -> (source: Option<&IoFailure>)
        ensures
            source.is_some() == first_tree_source(self.spec_cleanup_failures()).is_some(),
            source.is_some() ==> *source.unwrap() == first_tree_source(
                self.spec_cleanup_failures(),
            ).unwrap(),
    {
        let failures = &self.cleanup_failures;
        let mut index: usize = 0;
        proof {
            assert(failures@.subrange(0, failures@.len() as int) =~= failures@);
        }
        while index < failures.len()
            invariant
                failures@ == self.spec_cleanup_failures(),
                index <= failures@.len(),
                first_tree_source(failures@) == first_tree_source(
                    failures@.subrange(index as int, failures@.len() as int),
                ),
            decreases failures@.len() - index,
        {
            let ghost tail = failures@.subrange(index as int, failures@.len() as int);
            proof {
                assert(tail.drop_first() =~= failures@.subrange(index + 1, failures@.len() as int));
                assert(tail[0] == failures@[index as int]);
            }
            match &failures[index] {
                CommandCleanupFailure::ProcessTreeTermination { source } => {
                    return Some(source);
                },
                _ => {},
            }
            index = index + 1;
        }
        proof {
            assert(failures@.subrange(index as int, failures@.len() as int).len() == 0);
        }
        None
    }

    /// Returns the first direct-child termination source among the cleanup
    /// failures.
    pub fn child_source(&self) -> (source: Option<&IoFailure>)
        ensures
            source.is_some() == first_child_source(self.spec_cleanup_failures()).is_some(),
            source.is_some() ==> *source.unwrap() == first_child_source(
                self.spec_cleanup_failures(),
            ).unwrap(),
    {
        let failures = &self.cleanup_failures;
        let mut index: usize = 0;
        proof {
            assert(failures@.subrange(0, failures@.len() as int) =~= failures@);
        }
        while index < failures.len()
            invariant
                failures@ == self.spec_cleanup_failures(),
                index <= failures@.len(),
                first_child_source(failures@) == first_child_source(
                    failures@.subrange(index as int, failures@.len() as int),
                ),
            decreases failures@.len() - index,
        {
            let ghost tail = failures@.subrange(index as int, failures@.len() as int);
            proof {
                assert(tail.drop_first() =~= failures@.subrange(index + 1, failures@.len() as int));
                assert(tail[0] == failures@[index as int]);
            }
            match &failures[index] {
                CommandCleanupFailure::ChildTermination { source } => {
                    return Some(source);
                },
                _ => {},
            }
            index = index + 1;
        }
        proof {
            assert(failures@.subrange(index as int, failures@.len() as int).len() == 0);
        }
        None
    }
}

/// Converts a helper's primary reason into its cleanup representation.
pub fn reason_into_cleanup_failure(reason: CommandErrorReason) -> (failure: Option<
    CommandCleanupFailure,
>)
    ensures
        failure == helper_cleanup_failure(reason),
{
    match reason {
        CommandErrorReason::TimeFailed { source } => Some(CommandCleanupFailure::Time { source }),
        CommandErrorReason::WriteInputFailed { source } => Some(CommandCleanupFailure::Stdin { source }),
        CommandErrorReason::ReadOutputFailed { stream, source } => match stream {
            OutputStream::Stdout => Some(CommandCleanupFailure::StdoutRead { source }),
            OutputStream::Stderr => Some(CommandCleanupFailure::StderrRead { source }),
        },
        CommandErrorReason::WriteOutputFailed { stream, path, source } => match stream {
            OutputStream::Stdout => Some(CommandCleanupFailure::StdoutWrite { path, source }),
            OutputStream::Stderr => Some(CommandCleanupFailure::StderrWrite { path, source }),
        },
        _ => None,
    }
}

} // verus!
