//! Stable categories for command execution failures.

use vstd::prelude::*;

verus! {

/// Stable, data-free category of a command error.
#[derive(Clone, Copy, Debug, PartialEq, Eq, Structural)]
pub enum CommandErrorKind {
    /// The child process could not be spawned.
    SpawnFailed,
    /// Waiting for the child process failed.
    WaitFailed,
    /// Cancellation was requested before startup.
    CancelledBeforeStart,
    /// Termination after a timeout failed.
    KillFailed,
    /// Captured output could not be read.
    ReadOutputFailed,
    /// An input file could not be opened.
    OpenInputFailed,
    /// The configured input path is not a regular file.
    NonRegularInputFile,
    /// An output tee file could not be opened.
    OpenOutputFailed,
    /// The configured output path is not a regular file.
    NonRegularOutputFile,
    /// Input and output files conflict.
    InputOutputConflict,
    /// Output tee files conflict.
    OutputFilesConflict,
    /// An I/O file could not be inspected.
    InspectIoFileFailed,
    /// The stdin helper could not be started.
    StartInputThreadFailed,
    /// An output helper could not be started.
    StartOutputThreadFailed,
    /// Clock or timer handling failed.
    TimeFailed,
    /// Writing configured stdin failed.
    WriteInputFailed,
    /// Writing a captured stream to a tee failed.
    WriteOutputFailed,
    /// The command exceeded its timeout.
    TimedOut,
    /// The command was cancelled after startup.
    Cancelled,
    /// Process-tree cancellation failed.
    CancelFailed,
    /// Successful command output was truncated.
    OutputTruncated,
    /// The process exited with an unconfigured status.
    UnexpectedExit,
}

/// The name of a kind, as its debug rendering prints it.
pub open spec fn error_kind_name(kind: CommandErrorKind) -> Seq<char> {
    match kind {
        CommandErrorKind::SpawnFailed => "SpawnFailed"@,
        CommandErrorKind::WaitFailed => "WaitFailed"@,
        CommandErrorKind::CancelledBeforeStart => "CancelledBeforeStart"@,
        CommandErrorKind::KillFailed => "KillFailed"@,
        CommandErrorKind::ReadOutputFailed => "ReadOutputFailed"@,
        CommandErrorKind::OpenInputFailed => "OpenInputFailed"@,
        CommandErrorKind::NonRegularInputFile => "NonRegularInputFile"@,
        CommandErrorKind::OpenOutputFailed => "OpenOutputFailed"@,
        CommandErrorKind::NonRegularOutputFile => "NonRegularOutputFile"@,
        CommandErrorKind::InputOutputConflict => "InputOutputConflict"@,
        CommandErrorKind::OutputFilesConflict => "OutputFilesConflict"@,
        CommandErrorKind::InspectIoFileFailed => "InspectIoFileFailed"@,
        CommandErrorKind::StartInputThreadFailed => "StartInputThreadFailed"@,
        CommandErrorKind::StartOutputThreadFailed => "StartOutputThreadFailed"@,
        CommandErrorKind::TimeFailed => "TimeFailed"@,
        CommandErrorKind::WriteInputFailed => "WriteInputFailed"@,
        CommandErrorKind::WriteOutputFailed => "WriteOutputFailed"@,
        CommandErrorKind::TimedOut => "TimedOut"@,
        CommandErrorKind::Cancelled => "Cancelled"@,
        CommandErrorKind::CancelFailed => "CancelFailed"@,
        CommandErrorKind::OutputTruncated => "OutputTruncated"@,
        CommandErrorKind::UnexpectedExit => "UnexpectedExit"@,
    }
}

} // verus!
