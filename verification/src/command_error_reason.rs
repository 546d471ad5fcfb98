//! Detailed primary failure reasons for command execution.

use std::path::PathBuf;
use vstd::prelude::*;

use crate::CommandErrorKind;
use crate::IoFailure;
use crate::OutputStream;
use crate::TimeFailure;
use crate::TimeSpan;

verus! {

/// Detailed primary reason carried by a command error.
pub enum CommandErrorReason {
    /// The process could not be spawned.
    SpawnFailed {
        /// Operating-system spawn error.
        source: IoFailure,
    },
    /// Waiting for process completion failed.
    WaitFailed {
        /// Operating-system wait error.
        source: IoFailure,
    },
    /// Cancellation was requested before startup.
    CancelledBeforeStart,
    /// Termination after a timeout failed.
    KillFailed {
        /// Timeout that was exceeded.
        timeout: TimeSpan,
        /// Process-tree termination error.
        process_tree_source: IoFailure,
        /// Direct-child termination error.
        child_source: IoFailure,
    },
    /// Reading a captured stream failed.
    ReadOutputFailed {
        /// Output stream whose reader failed.
        stream: OutputStream,
        /// Operating-system read error.
        source: IoFailure,
    },
    /// Opening stdin failed.
    OpenInputFailed {
        /// Configured stdin path.
        path: PathBuf,
        /// Operating-system open error.
        source: IoFailure,
    },
    /// Stdin path is not a regular file.
    NonRegularInputFile {
        /// Configured stdin path.
        path: PathBuf,
    },
    /// Opening an output tee failed.
    OpenOutputFailed {
        /// Output stream whose tee could not be opened.
        stream: OutputStream,
        /// Configured output path.
        path: PathBuf,
        /// Operating-system open error.
        source: IoFailure,
    },
    /// Output tee path is not a regular file.
    NonRegularOutputFile {
        /// Output stream receiving the tee.
        stream: OutputStream,
        /// Configured output path.
        path: PathBuf,
    },
    /// Input and output files conflict.
    InputOutputConflict {
        /// Configured stdin path.
        input_path: PathBuf,
        /// Output stream whose path conflicts with stdin.
        output_stream: OutputStream,
        /// Conflicting output path.
        output_path: PathBuf,
    },
    /// Output tee files conflict.
    OutputFilesConflict {
        /// Configured stdout tee path.
        stdout_path: PathBuf,
        /// Configured stderr tee path.
        stderr_path: PathBuf,
    },
    /// An I/O file could not be inspected.
    InspectIoFileFailed {
        /// Configured path that could not be inspected.
        path: PathBuf,
        /// Operating-system inspection error.
        source: IoFailure,
    },
    /// The stdin helper could not be started.
    StartInputThreadFailed {
        /// Thread creation error.
        source: IoFailure,
    },
    /// An output helper could not be started.
    StartOutputThreadFailed {
        /// Output stream whose helper could not start.
        stream: OutputStream,
        /// Thread creation error.
        source: IoFailure,
    },
    /// Clock or timer handling failed.
    TimeFailed {
        /// Clock or timer error.
        source: TimeFailure,
    },
    /// Writing configured stdin failed.
    WriteInputFailed {
        /// Operating-system write error.
        source: IoFailure,
    },
    /// Writing a captured stream to a tee failed.
    WriteOutputFailed {
        /// Output stream whose tee write failed.
        stream: OutputStream,
        /// Configured output path.
        path: PathBuf,
        /// Operating-system write error.
        source: IoFailure,
    },
    /// The command exceeded its timeout.
    TimedOut {
        /// Timeout that was exceeded.
        timeout: TimeSpan,
    },
    /// The command was cancelled after startup.
    Cancelled,
    /// Process-tree cancellation failed.
    CancelFailed {
        /// Process-tree termination error.
        process_tree_source: IoFailure,
        /// Direct-child termination error.
        child_source: IoFailure,
    },
    /// Successful command output was truncated.
    OutputTruncated,
    /// The process exited with an unconfigured status.
    UnexpectedExit {
        /// Exit code reported by the process, when available.
        exit_code: Option<i32>,
        /// Exit codes configured as successful.
        expected: Vec<i32>,
    },
}

/// The stable category of a reason: one kind per variant, of the same name.
pub open spec fn reason_kind(reason: CommandErrorReason) -> CommandErrorKind {
    match reason {
        CommandErrorReason::SpawnFailed { .. } => CommandErrorKind::SpawnFailed,
        CommandErrorReason::WaitFailed { .. } => CommandErrorKind::WaitFailed,
        CommandErrorReason::CancelledBeforeStart => CommandErrorKind::CancelledBeforeStart,
        CommandErrorReason::KillFailed { .. } => CommandErrorKind::KillFailed,
        CommandErrorReason::ReadOutputFailed { .. } => CommandErrorKind::ReadOutputFailed,
        CommandErrorReason::OpenInputFailed { .. } => CommandErrorKind::OpenInputFailed,
        CommandErrorReason::NonRegularInputFile { .. } => CommandErrorKind::NonRegularInputFile,
        CommandErrorReason::OpenOutputFailed { .. } => CommandErrorKind::OpenOutputFailed,
        CommandErrorReason::NonRegularOutputFile { .. } => CommandErrorKind::NonRegularOutputFile,
        CommandErrorReason::InputOutputConflict { .. } => CommandErrorKind::InputOutputConflict,
        CommandErrorReason::OutputFilesConflict { .. } => CommandErrorKind::OutputFilesConflict,
        CommandErrorReason::InspectIoFileFailed { .. } => CommandErrorKind::InspectIoFileFailed,
        CommandErrorReason::StartInputThreadFailed { .. } => CommandErrorKind::StartInputThreadFailed,
        CommandErrorReason::StartOutputThreadFailed { .. } => CommandErrorKind::StartOutputThreadFailed,
        CommandErrorReason::TimeFailed { .. } => CommandErrorKind::TimeFailed,
        CommandErrorReason::WriteInputFailed { .. } => CommandErrorKind::WriteInputFailed,
        CommandErrorReason::WriteOutputFailed { .. } => CommandErrorKind::WriteOutputFailed,
        CommandErrorReason::TimedOut { .. } => CommandErrorKind::TimedOut,
        CommandErrorReason::Cancelled => CommandErrorKind::Cancelled,
        CommandErrorReason::CancelFailed { .. } => CommandErrorKind::CancelFailed,
        CommandErrorReason::OutputTruncated => CommandErrorKind::OutputTruncated,
        CommandErrorReason::UnexpectedExit { .. } => CommandErrorKind::UnexpectedExit,
    }
}

impl CommandErrorReason {
    /// Returns the stable category of this reason.
    pub fn kind(&self) -> (kind: CommandErrorKind)
        ensures
            kind == reason_kind(*self),
    {
        match self {
            CommandErrorReason::SpawnFailed { .. } => CommandErrorKind::SpawnFailed,
            CommandErrorReason::WaitFailed { .. } => CommandErrorKind::WaitFailed,
            CommandErrorReason::CancelledBeforeStart => CommandErrorKind::CancelledBeforeStart,
            CommandErrorReason::KillFailed { .. } => CommandErrorKind::KillFailed,
            CommandErrorReason::ReadOutputFailed { .. } => CommandErrorKind::ReadOutputFailed,
            CommandErrorReason::OpenInputFailed { .. } => CommandErrorKind::OpenInputFailed,
            CommandErrorReason::NonRegularInputFile { .. } => CommandErrorKind::NonRegularInputFile,
            CommandErrorReason::OpenOutputFailed { .. } => CommandErrorKind::OpenOutputFailed,
            CommandErrorReason::NonRegularOutputFile { .. } => CommandErrorKind::NonRegularOutputFile,
            CommandErrorReason::InputOutputConflict { .. } => CommandErrorKind::InputOutputConflict,
            CommandErrorReason::OutputFilesConflict { .. } => CommandErrorKind::OutputFilesConflict,
            CommandErrorReason::InspectIoFileFailed { .. } => CommandErrorKind::InspectIoFileFailed,
            CommandErrorReason::StartInputThreadFailed { .. } => CommandErrorKind::StartInputThreadFailed,
            CommandErrorReason::StartOutputThreadFailed { .. } => CommandErrorKind::StartOutputThreadFailed,
            CommandErrorReason::TimeFailed { .. } => CommandErrorKind::TimeFailed,
            CommandErrorReason::WriteInputFailed { .. } => CommandErrorKind::WriteInputFailed,
            CommandErrorReason::WriteOutputFailed { .. } => CommandErrorKind::WriteOutputFailed,
            CommandErrorReason::TimedOut { .. } => CommandErrorKind::TimedOut,
            CommandErrorReason::Cancelled => CommandErrorKind::Cancelled,
            CommandErrorReason::CancelFailed { .. } => CommandErrorKind::CancelFailed,
            CommandErrorReason::OutputTruncated => CommandErrorKind::OutputTruncated,
            CommandErrorReason::UnexpectedExit { .. } => CommandErrorKind::UnexpectedExit,
        }
    }
}

} // verus!
