//! Verified core of a child-process command runner.
//!
//! The library holds the decisions of running a command: how captured
//! output is accumulated and truncated, which failure becomes the primary
//! error and in which order secondary cleanup failures are reported, how a
//! process tree is terminated, how a wait on a child ends, which configured
//! files conflict, and how the runner judges a finished process.
//!
//! Operating-system work (spawning, pipes, clocks, files) is done by the
//! caller. It either hands the outcomes to these functions as plain values,
//! or implements one of the small traits through which the verified
//! procedures ask for it: [`terminator::ChildControl`],
//! [`capture::OutputSource`], [`capture::OutputSink`],
//! [`helpers::InputSink`], [`running::RunHelpers`],
//! [`running::RunMonitor`] and [`io_files::FileSystem`]. Nothing is assumed
//! about what those report; every contract holds for every report.

pub mod io_failure;
pub mod time_failure;
pub mod time_span;
pub mod exit_status;
pub mod output_stream;
pub mod command_cancellation;
pub mod paths;

pub mod command_error_kind;
pub mod command_cleanup_failure;
pub mod command_error_reason;
pub mod command_output;
pub mod command_error;
pub mod diagnostics;
pub mod debug_text;

pub mod command;
pub mod command_run_options;
pub mod command_runner;

pub mod capture;
pub mod collector;
pub mod helpers;
pub mod error_mapping;
pub mod io_files;
pub mod terminator;
pub mod stop;
pub mod running;

pub use command::Command;
pub use command::CommandArgument;
pub use command::CommandStdin;
pub use command_cancellation::CommandCancellation;
pub use command_cleanup_failure::CommandCleanupFailure;
pub use command_error::CommandError;
pub use command_error_kind::CommandErrorKind;
pub use command_error_reason::CommandErrorReason;
pub use command_output::CommandOutput;
pub use command_run_options::CommandRunOptions;
pub use command_run_options::CommandRunOptionsParts;
pub use command_runner::CommandRunner;
pub use command_runner::DEFAULT_MAX_OUTPUT_BYTES_PER_STREAM;
pub use exit_status::ExitStatus;
pub use io_failure::IoFailure;
pub use io_failure::IoFailureKind;
pub use output_stream::stream_name;
pub use output_stream::OutputStream;
pub use time_failure::TimeFailure;
pub use time_span::TimeSpan;
