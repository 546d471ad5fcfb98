//! Debug renderings of errors and failures for diagnostics and logs.
//!
//! Configured paths are never rendered as they are: each is passed through
//! the strict field redactor under the field name `command_path` first.

use std::path::PathBuf;
use vstd::prelude::*;
use vstd::string::StringExecFns;

use crate::diagnostics::code_list_string;
use crate::diagnostics::code_list_text;
use crate::diagnostics::error_message;
use crate::diagnostics::mentions;
use crate::diagnostics::optional_code_string;
use crate::diagnostics::optional_code_text;
use crate::time_span::duration_debug_text;
use crate::CommandCleanupFailure;
use crate::CommandError;
use crate::CommandErrorReason;
use crate::command_error_kind::error_kind_name;
use crate::command_error_reason::reason_kind;
use crate::CommandRunOptions;
use crate::CommandRunner;
use crate::TimeSpan;
use crate::diagnostics::comma_joined;
use crate::diagnostics::decimal_text;
use crate::diagnostics::code_list_text as codes_text;
use qubit_redact::RedactionPolicy;
use crate::IoFailure;
use crate::IoFailureKind;
use crate::OutputStream;
use crate::TimeFailure;

verus! {

/// The debug rendering of a string: quoted, with quotes, backslashes and
/// non-printable characters escaped.
pub uninterp spec fn string_debug_text(text: Seq<char>) -> Seq<char>;

/// Renders a string in debug form (`str`'s `Debug`).
#[verifier::external_body]
pub(crate) fn quoted_text(text: &str) -> (rendered: String)
    ensures
        rendered@ == string_debug_text(text@),
{
    format!("{:?}", text)
}

/// What the strict redactor produces for a field's value, with `marker`
/// standing in for output that could not be completed.
pub uninterp spec fn strict_field_redaction(field: Seq<char>, value: Seq<char>, marker: Seq<char>) -> Seq<char>;

/// The text shown in place of a redaction that could not complete.
pub open spec fn incomplete_redaction_marker() -> Seq<char> {
    "<redaction incomplete>"@
}

/// Redacts one field value with the strict redaction policy
/// (`qubit_redact::Redactor::strict().redact_field`), falling back to
/// `marker` when redaction cannot complete. The strict policy is a fixed
/// preset, so the text depends on the field name, the value and the marker
/// alone.
#[verifier::external_body]
fn redact_strict(field: &str, value: &str, marker: &str) -> (redacted: String)
    ensures
        redacted@ == strict_field_redaction(field@, value@, marker@),
{
    qubit_redact::Redactor::strict().redact_field(field, value).into_text_or_marker(marker).into_string()
}

/// Renders a path in debug form (`PathBuf`'s `Debug`). Paths are opaque to
/// the library, so nothing is stated about the text.
#[verifier::external_body]
fn path_debug(path: &PathBuf) -> String {
    format!("{:?}", path)
}

/// How a path whose raw debug text is `raw` is rendered: redacted as a
/// `command_path` field, then quoted.
pub open spec fn redacted_path_text(raw: Seq<char>) -> Seq<char> {
    string_debug_text(strict_field_redaction("command_path"@, raw, incomplete_redaction_marker()))
}

/// Renders a path redacted, and returns its raw debug text beside it.
fn redacted_path(path: &PathBuf) -> (rendered: (String, String))
    ensures
        rendered.0@ == redacted_path_text(rendered.1@),
{
    let raw = path_debug(path);
    let redacted = redact_strict("command_path", raw.as_str(), "<redaction incomplete>");
    (quoted_text(redacted.as_str()), raw)
}

/// A field of a debug rendering: `name: value`.
pub open spec fn field(name: Seq<char>, value: Seq<char>) -> Seq<char> {
    name + ": "@ + value
}

/// A struct rendering with one field.
pub open spec fn struct1(name: Seq<char>, a: Seq<char>) -> Seq<char> {
    name + " { "@ + a + " }"@
}

/// A struct rendering with two fields.
pub open spec fn struct2(name: Seq<char>, a: Seq<char>, b: Seq<char>) -> Seq<char> {
    name + " { "@ + a + ", "@ + b + " }"@
}

/// A struct rendering with three fields.
pub open spec fn struct3(name: Seq<char>, a: Seq<char>, b: Seq<char>, c: Seq<char>) -> Seq<char> {
    name + " { "@ + a + ", "@ + b + ", "@ + c + " }"@
}

fn field_string(name: &str, value: String) -> (text: String)
    ensures
        text@ == field(name@, value@),
{
    String::from_str(name).concat(": ").concat(value.as_str())
}

fn struct1_string(name: &str, a: String) -> (text: String)
    ensures
        text@ == struct1(name@, a@),
{
    String::from_str(name).concat(" { ").concat(a.as_str()).concat(" }")
}

fn struct2_string(name: &str, a: String, b: String) -> (text: String)
    ensures
        text@ == struct2(name@, a@, b@),
{
    String::from_str(name).concat(" { ").concat(a.as_str()).concat(", ").concat(b.as_str()).concat(" }")
}

fn struct3_string(name: &str, a: String, b: String, c: String) -> (text: String)
    ensures
        text@ == struct3(name@, a@, b@, c@),
{
    String::from_str(name).concat(" { ").concat(a.as_str()).concat(", ").concat(b.as_str()).concat(", ").concat(
        c.as_str(),
    ).concat(" }")
}

/// The name of a failure category.
pub open spec fn kind_name(kind: IoFailureKind) -> Seq<char> {
    match kind {
        IoFailureKind::NotFound => "NotFound"@,
        IoFailureKind::BrokenPipe => "BrokenPipe"@,
        IoFailureKind::Interrupted => "Interrupted"@,
        IoFailureKind::WouldBlock => "WouldBlock"@,
        IoFailureKind::WriteZero => "WriteZero"@,
        IoFailureKind::Other => "Other"@,
    }
}

fn kind_name_str(kind: IoFailureKind) -> (name: &'static str)
    ensures
        name@ == kind_name(kind),
{
    match kind {
        IoFailureKind::NotFound => "NotFound",
        IoFailureKind::BrokenPipe => "BrokenPipe",
        IoFailureKind::Interrupted => "Interrupted",
        IoFailureKind::WouldBlock => "WouldBlock",
        IoFailureKind::WriteZero => "WriteZero",
        IoFailureKind::Other => "Other",
    }
}

/// The debug rendering of an I/O failure.
pub open spec fn io_failure_debug(failure: IoFailure) -> Seq<char> {
    struct3(
        "IoFailure"@,
        field("kind"@, kind_name(failure.kind)),
        field("raw_os_error"@, optional_code_text(failure.raw_os_error)),
        field("message"@, string_debug_text(failure.message@)),
    )
}

/// The debug rendering of a time failure.
pub open spec fn time_failure_debug(failure: TimeFailure) -> Seq<char> {
    struct1("TimeFailure"@, field("message"@, string_debug_text(failure.message@)))
}

/// The debug name of a stream.
pub open spec fn stream_debug(stream: OutputStream) -> Seq<char> {
    match stream {
        OutputStream::Stdout => "Stdout"@,
        OutputStream::Stderr => "Stderr"@,
    }
}

fn stream_debug_str(stream: OutputStream) -> (name: &'static str)
    ensures
        name@ == stream_debug(stream),
{
    match stream {
        OutputStream::Stdout => "Stdout",
        OutputStream::Stderr => "Stderr",
    }
}

impl IoFailure {
    /// The debug rendering of this failure: its kind, raw code and quoted
    /// message.
    pub fn debug_text(&self) -> (text: String)
        ensures
            text@ == io_failure_debug(*self),
    {
        struct3_string(
            "IoFailure",
            field_string("kind", String::from_str(kind_name_str(self.kind))),
            field_string("raw_os_error", optional_code_string(self.raw_os_error)),
            field_string("message", quoted_text(self.message.as_str())),
        )
    }
}

impl TimeFailure {
    /// The debug rendering of this failure: its quoted message.
    pub fn debug_text(&self) -> (text: String)
        ensures
            text@ == time_failure_debug(*self),
    {
        struct1_string("TimeFailure", field_string("message", quoted_text(self.message.as_str())))
    }
}

/// The number of paths a reason carries, in field order.
pub open spec fn reason_path_count(reason: CommandErrorReason) -> nat {
    match reason {
        CommandErrorReason::OpenInputFailed { .. } => 1,
        CommandErrorReason::NonRegularInputFile { .. } => 1,
        CommandErrorReason::OpenOutputFailed { .. } => 1,
        CommandErrorReason::NonRegularOutputFile { .. } => 1,
        CommandErrorReason::InputOutputConflict { .. } => 2,
        CommandErrorReason::OutputFilesConflict { .. } => 2,
        CommandErrorReason::InspectIoFileFailed { .. } => 1,
        CommandErrorReason::WriteOutputFailed { .. } => 1,
        _ => 0,
    }
}

/// The debug rendering of a reason, given the raw debug texts of its paths
/// in field order; each path appears redacted.
pub open spec fn reason_debug(reason: CommandErrorReason, raw_paths: Seq<Seq<char>>) -> Seq<char> {
    let source = |failure: IoFailure| field("source"@, io_failure_debug(failure));
    let path = |name: Seq<char>, index: int| field(name, redacted_path_text(raw_paths[index]));
    match reason {
        CommandErrorReason::SpawnFailed { source: s } => struct1("SpawnFailed"@, source(s)),
        CommandErrorReason::WaitFailed { source: s } => struct1("WaitFailed"@, source(s)),
        CommandErrorReason::CancelledBeforeStart => "CancelledBeforeStart"@,
        CommandErrorReason::KillFailed { timeout, process_tree_source, child_source } => struct3(
            "KillFailed"@,
            field("timeout"@, duration_debug_text(timeout.view_nanos())),
            field("process_tree_source"@, io_failure_debug(process_tree_source)),
            field("child_source"@, io_failure_debug(child_source)),
        ),
        CommandErrorReason::ReadOutputFailed { stream, source: s } => struct2(
            "ReadOutputFailed"@,
            field("stream"@, stream_debug(stream)),
            source(s),
        ),
        CommandErrorReason::OpenInputFailed { source: s, .. } => struct2(
            "OpenInputFailed"@,
            path("path"@, 0),
            source(s),
        ),
        CommandErrorReason::NonRegularInputFile { .. } => struct1("NonRegularInputFile"@, path("path"@, 0)),
        CommandErrorReason::OpenOutputFailed { stream, source: s, .. } => struct3(
            "OpenOutputFailed"@,
            field("stream"@, stream_debug(stream)),
            path("path"@, 0),
            source(s),
        ),
        CommandErrorReason::NonRegularOutputFile { stream, .. } => struct2(
            "NonRegularOutputFile"@,
            field("stream"@, stream_debug(stream)),
            path("path"@, 0),
        ),
        CommandErrorReason::InputOutputConflict { output_stream, .. } => struct3(
            "InputOutputConflict"@,
            path("input_path"@, 0),
            field("output_stream"@, stream_debug(output_stream)),
            path("output_path"@, 1),
        ),
        CommandErrorReason::OutputFilesConflict { .. } => struct2(
            "OutputFilesConflict"@,
            path("stdout_path"@, 0),
            path("stderr_path"@, 1),
        ),
        CommandErrorReason::InspectIoFileFailed { source: s, .. } => struct2(
            "InspectIoFileFailed"@,
            path("path"@, 0),
            source(s),
        ),
        CommandErrorReason::StartInputThreadFailed { source: s } => struct1("StartInputThreadFailed"@, source(s)),
        CommandErrorReason::StartOutputThreadFailed { stream, source: s } => struct2(
            "StartOutputThreadFailed"@,
            field("stream"@, stream_debug(stream)),
            source(s),
        ),
        CommandErrorReason::TimeFailed { source: s } => struct1(
            "TimeFailed"@,
            field("source"@, time_failure_debug(s)),
        ),
        CommandErrorReason::WriteInputFailed { source: s } => struct1("WriteInputFailed"@, source(s)),
        CommandErrorReason::WriteOutputFailed { stream, source: s, .. } => struct3(
            "WriteOutputFailed"@,
            field("stream"@, stream_debug(stream)),
            path("path"@, 0),
            source(s),
        ),
        CommandErrorReason::TimedOut { timeout } => struct1(
            "TimedOut"@,
            field("timeout"@, duration_debug_text(timeout.view_nanos())),
        ),
        CommandErrorReason::Cancelled => "Cancelled"@,
        CommandErrorReason::CancelFailed { process_tree_source, child_source } => struct2(
            "CancelFailed"@,
            field("process_tree_source"@, io_failure_debug(process_tree_source)),
            field("child_source"@, io_failure_debug(child_source)),
        ),
        CommandErrorReason::OutputTruncated => "OutputTruncated"@,
        CommandErrorReason::UnexpectedExit { exit_code, expected } => struct2(
            "UnexpectedExit"@,
            field("exit_code"@, optional_code_text(exit_code)),
            field("expected"@, code_list_text(expected@)),
        ),
    }
}

fn source_field(failure: &IoFailure) -> (text: String)
    ensures
        text@ == field("source"@, io_failure_debug(*failure)),
{
    field_string("source", failure.debug_text())
}

fn stream_field(name: &str, stream: OutputStream) -> (text: String)
    ensures
        text@ == field(name@, stream_debug(stream)),
{
    field_string(name, String::from_str(stream_debug_str(stream)))
}

impl CommandErrorReason {
    /// The debug rendering of this reason: its variant and fields, with every
    /// path redacted. The raw path texts that were redacted are the ones the
    /// standard path rendering gives.
    pub fn debug_text(&self) -> (text: String)
        ensures
            exists|raw_paths: Seq<Seq<char>>|
                raw_paths.len() == reason_path_count(*self) && text@ == #[trigger] reason_debug(*self, raw_paths),
    {
        match self {
            CommandErrorReason::SpawnFailed { source } => {
                let text = struct1_string("SpawnFailed", source_field(source));
                assert(text@ == reason_debug(*self, seq![]));
                text
            },
            CommandErrorReason::WaitFailed { source } => {
                let text = struct1_string("WaitFailed", source_field(source));
                assert(text@ == reason_debug(*self, seq![]));
                text
            },
            CommandErrorReason::CancelledBeforeStart => {
                let text = String::from_str("CancelledBeforeStart");
                assert(text@ == reason_debug(*self, seq![]));
                text
            },
            CommandErrorReason::KillFailed { timeout, process_tree_source, child_source } => {
                let text = struct3_string(
                    "KillFailed",
                    field_string("timeout", timeout.debug_text()),
                    field_string("process_tree_source", process_tree_source.debug_text()),
                    field_string("child_source", child_source.debug_text()),
                );
                assert(text@ == reason_debug(*self, seq![]));
                text
            },
            CommandErrorReason::ReadOutputFailed { stream, source } => {
                let text = struct2_string("ReadOutputFailed", stream_field("stream", *stream), source_field(source));
                assert(text@ == reason_debug(*self, seq![]));
                text
            },
            CommandErrorReason::OpenInputFailed { path, source } => {
                let (rendered, raw) = redacted_path(path);
                let text = struct2_string("OpenInputFailed", field_string("path", rendered), source_field(source));
                assert(text@ == reason_debug(*self, seq![raw@]));
                text
            },
            CommandErrorReason::NonRegularInputFile { path } => {
                let (rendered, raw) = redacted_path(path);
                let text = struct1_string("NonRegularInputFile", field_string("path", rendered));
                assert(text@ == reason_debug(*self, seq![raw@]));
                text
            },
            CommandErrorReason::OpenOutputFailed { stream, path, source } => {
                let (rendered, raw) = redacted_path(path);
                let text = struct3_string(
                    "OpenOutputFailed",
                    stream_field("stream", *stream),
                    field_string("path", rendered),
                    source_field(source),
                );
                assert(text@ == reason_debug(*self, seq![raw@]));
                text
            },
            CommandErrorReason::NonRegularOutputFile { stream, path } => {
                let (rendered, raw) = redacted_path(path);
                let text = struct2_string(
                    "NonRegularOutputFile",
                    stream_field("stream", *stream),
                    field_string("path", rendered),
                );
                assert(text@ == reason_debug(*self, seq![raw@]));
                text
            },
            CommandErrorReason::InputOutputConflict { input_path, output_stream, output_path } => {
                let (input_rendered, input_raw) = redacted_path(input_path);
                let (output_rendered, output_raw) = redacted_path(output_path);
                let text = struct3_string(
                    "InputOutputConflict",
                    field_string("input_path", input_rendered),
                    stream_field("output_stream", *output_stream),
                    field_string("output_path", output_rendered),
                );
                assert(text@ == reason_debug(*self, seq![input_raw@, output_raw@]));
                text
            },
            CommandErrorReason::OutputFilesConflict { stdout_path, stderr_path } => {
                let (stdout_rendered, stdout_raw) = redacted_path(stdout_path);
                let (stderr_rendered, stderr_raw) = redacted_path(stderr_path);
                let text = struct2_string(
                    "OutputFilesConflict",
                    field_string("stdout_path", stdout_rendered),
                    field_string("stderr_path", stderr_rendered),
                );
                assert(text@ == reason_debug(*self, seq![stdout_raw@, stderr_raw@]));
                text
            },
            CommandErrorReason::InspectIoFileFailed { path, source } => {
                let (rendered, raw) = redacted_path(path);
                let text = struct2_string("InspectIoFileFailed", field_string("path", rendered), source_field(source));
                assert(text@ == reason_debug(*self, seq![raw@]));
                text
            },
            CommandErrorReason::StartInputThreadFailed { source } => {
                let text = struct1_string("StartInputThreadFailed", source_field(source));
                assert(text@ == reason_debug(*self, seq![]));
                text
            },
            CommandErrorReason::StartOutputThreadFailed { stream, source } => {
                let text = struct2_string(
                    "StartOutputThreadFailed",
                    stream_field("stream", *stream),
                    source_field(source),
                );
                assert(text@ == reason_debug(*self, seq![]));
                text
            },
            CommandErrorReason::TimeFailed { source } => {
                let text = struct1_string("TimeFailed", field_string("source", source.debug_text()));
                assert(text@ == reason_debug(*self, seq![]));
                text
            },
            CommandErrorReason::WriteInputFailed { source } => {
                let text = struct1_string("WriteInputFailed", source_field(source));
                assert(text@ == reason_debug(*self, seq![]));
                text
            },
            CommandErrorReason::WriteOutputFailed { stream, path, source } => {
                let (rendered, raw) = redacted_path(path);
                let text = struct3_string(
                    "WriteOutputFailed",
                    stream_field("stream", *stream),
                    field_string("path", rendered),
                    source_field(source),
                );
                assert(text@ == reason_debug(*self, seq![raw@]));
                text
            },
            CommandErrorReason::TimedOut { timeout } => {
                let text = struct1_string("TimedOut", field_string("timeout", timeout.debug_text()));
                assert(text@ == reason_debug(*self, seq![]));
                text
            },
            CommandErrorReason::Cancelled => {
                let text = String::from_str("Cancelled");
                assert(text@ == reason_debug(*self, seq![]));
                text
            },
            CommandErrorReason::CancelFailed { process_tree_source, child_source } => {
                let text = struct2_string(
                    "CancelFailed",
                    field_string("process_tree_source", process_tree_source.debug_text()),
                    field_string("child_source", child_source.debug_text()),
                );
                assert(text@ == reason_debug(*self, seq![]));
                text
            },
            CommandErrorReason::OutputTruncated => {
                let text = String::from_str("OutputTruncated");
                assert(text@ == reason_debug(*self, seq![]));
                text
            },
            CommandErrorReason::UnexpectedExit { exit_code, expected } => {
                let text = struct2_string(
                    "UnexpectedExit",
                    field_string("exit_code", optional_code_string(*exit_code)),
                    field_string("expected", code_list_string(expected.as_slice())),
                );
                assert(text@ == reason_debug(*self, seq![]));
                text
            },
        }
    }
}

/// The number of paths a cleanup failure carries.
pub open spec fn failure_path_count(failure: CommandCleanupFailure) -> nat {
    match failure {
        CommandCleanupFailure::StdoutWrite { .. } => 1,
        CommandCleanupFailure::StderrWrite { .. } => 1,
        _ => 0,
    }
}

/// The debug rendering of a cleanup failure, given the raw debug text of its
/// path when it has one; the path appears redacted.
pub open spec fn failure_debug(failure: CommandCleanupFailure, raw_paths: Seq<Seq<char>>) -> Seq<char> {
    let source = |failure: IoFailure| field("source"@, io_failure_debug(failure));
    match failure {
        CommandCleanupFailure::Wait { source: s } => struct1("Wait"@, source(s)),
        CommandCleanupFailure::ProcessTreeTermination { source: s } => struct1("ProcessTreeTermination"@, source(s)),
        CommandCleanupFailure::ChildTermination { source: s } => struct1("ChildTermination"@, source(s)),
        CommandCleanupFailure::Time { source: s } => struct1("Time"@, field("source"@, time_failure_debug(s))),
        CommandCleanupFailure::Stdin { source: s } => struct1("Stdin"@, source(s)),
        CommandCleanupFailure::StdinCancellation { source: s } => struct1("StdinCancellation"@, source(s)),
        CommandCleanupFailure::StdoutCancellation { source: s } => struct1("StdoutCancellation"@, source(s)),
        CommandCleanupFailure::StdoutRead { source: s } => struct1("StdoutRead"@, source(s)),
        CommandCleanupFailure::StdoutWrite { source: s, .. } => struct2(
            "StdoutWrite"@,
            field("path"@, redacted_path_text(raw_paths[0])),
            source(s),
        ),
        CommandCleanupFailure::StderrCancellation { source: s } => struct1("StderrCancellation"@, source(s)),
        CommandCleanupFailure::StderrRead { source: s } => struct1("StderrRead"@, source(s)),
        CommandCleanupFailure::StderrWrite { source: s, .. } => struct2(
            "StderrWrite"@,
            field("path"@, redacted_path_text(raw_paths[0])),
            source(s),
        ),
    }
}

impl CommandCleanupFailure {
    /// The debug rendering of this failure: its variant and fields, with the
    /// tee path redacted.
    pub fn debug_text(&self) -> (text: String)
        ensures
            exists|raw_paths: Seq<Seq<char>>|
                raw_paths.len() == failure_path_count(*self) && text@ == #[trigger] failure_debug(*self, raw_paths),
    {
        match self {
            CommandCleanupFailure::Wait { source } => {
                let text = struct1_string("Wait", source_field(source));
                assert(text@ == failure_debug(*self, seq![]));
                text
            },
            CommandCleanupFailure::ProcessTreeTermination { source } => {
                let text = struct1_string("ProcessTreeTermination", source_field(source));
                assert(text@ == failure_debug(*self, seq![]));
                text
            },
            CommandCleanupFailure::ChildTermination { source } => {
                let text = struct1_string("ChildTermination", source_field(source));
                assert(text@ == failure_debug(*self, seq![]));
                text
            },
            CommandCleanupFailure::Time { source } => {
                let text = struct1_string("Time", field_string("source", source.debug_text()));
                assert(text@ == failure_debug(*self, seq![]));
                text
            },
            CommandCleanupFailure::Stdin { source } => {
                let text = struct1_string("Stdin", source_field(source));
                assert(text@ == failure_debug(*self, seq![]));
                text
            },
            CommandCleanupFailure::StdinCancellation { source } => {
                let text = struct1_string("StdinCancellation", source_field(source));
                assert(text@ == failure_debug(*self, seq![]));
                text
            },
            CommandCleanupFailure::StdoutCancellation { source } => {
                let text = struct1_string("StdoutCancellation", source_field(source));
                assert(text@ == failure_debug(*self, seq![]));
                text
            },
            CommandCleanupFailure::StdoutRead { source } => {
                let text = struct1_string("StdoutRead", source_field(source));
                assert(text@ == failure_debug(*self, seq![]));
                text
            },
            CommandCleanupFailure::StdoutWrite { path, source } => {
                let (rendered, raw) = redacted_path(path);
                let text = struct2_string("StdoutWrite", field_string("path", rendered), source_field(source));
                assert(text@ == failure_debug(*self, seq![raw@]));
                text
            },
            CommandCleanupFailure::StderrCancellation { source } => {
                let text = struct1_string("StderrCancellation", source_field(source));
                assert(text@ == failure_debug(*self, seq![]));
                text
            },
            CommandCleanupFailure::StderrRead { source } => {
                let text = struct1_string("StderrRead", source_field(source));
                assert(text@ == failure_debug(*self, seq![]));
                text
            },
            CommandCleanupFailure::StderrWrite { path, source } => {
                let (rendered, raw) = redacted_path(path);
                let text = struct2_string("StderrWrite", field_string("path", rendered), source_field(source));
                assert(text@ == failure_debug(*self, seq![raw@]));
                text
            },
        }
    }
}

impl CommandError {
    /// The debug rendering of this error: its quoted message.
    pub fn debug_text(&self) -> (text: String)
        ensures
            text@ == error_debug(*self),
    {
        let message = self.message();
        struct1_string("CommandError", field_string("message", quoted_text(message.as_str())))
    }
}

/// The debug rendering of an error, as [`CommandError::debug_text`] gives it.
pub open spec fn error_debug(error: CommandError) -> Seq<char> {
    struct1("CommandError"@, field("message"@, string_debug_text(error_message(error))))
}

/// Law: the debug form of an error holds its message in quoted form, and
/// holds the message itself whenever quoting it escapes nothing (the quoted
/// form is the message between two quotes).
pub proof fn lemma_debug_text_holds_message(error: CommandError)
    ensures
        mentions(error_debug(error), string_debug_text(error_message(error))),
        string_debug_text(error_message(error)) == "\""@ + error_message(error) + "\""@ ==> mentions(
            error_debug(error),
            error_message(error),
        ),
{
    let message = error_message(error);
    let quoted = string_debug_text(message);
    let before = "CommandError"@ + " { "@ + "message"@ + ": "@;
    let text = error_debug(error);
    assert(text =~= before + quoted + " }"@);
    assert(text.subrange(before.len() as int, (before.len() + quoted.len()) as int) =~= quoted);
    if quoted == "\""@ + message + "\""@ {
        reveal_strlit("\"");
        let head = before + "\""@;
        assert(text =~= head + message + ("\""@ + " }"@));
        assert(text.subrange(head.len() as int, (head.len() + message.len()) as int) =~= message);
    }
}

/// The debug rendering of an optional configured path: the path itself is
/// never shown.
pub open spec fn redacted_option_text(configured: bool) -> Seq<char> {
    if configured {
        "Some(\"<redacted path>\")"@
    } else {
        "None"@
    }
}

fn redacted_option_string(configured: bool) -> (text: String)
    ensures
        text@ == redacted_option_text(configured),
{
    if configured {
        String::from_str("Some(\"<redacted path>\")")
    } else {
        String::from_str("None")
    }
}

/// The debug rendering of a flag.
pub open spec fn bool_text(flag: bool) -> Seq<char> {
    if flag {
        "true"@
    } else {
        "false"@
    }
}

fn bool_string(flag: bool) -> (text: String)
    ensures
        text@ == bool_text(flag),
{
    if flag {
        String::from_str("true")
    } else {
        String::from_str("false")
    }
}

impl CommandRunOptions {
    /// The debug rendering of these options: whether cancellation is
    /// configured, and which tee files are, without their paths.
    pub fn debug_text(&self) -> (text: String)
        ensures
            text@ == struct3(
                "CommandRunOptions"@,
                field("cancellation_configured"@, bool_text(self.spec_cancellation().is_some())),
                field("stdout_file"@, redacted_option_text(self.spec_stdout_file().is_some())),
                field("stderr_file"@, redacted_option_text(self.spec_stderr_file().is_some())),
            ),
    {
        struct3_string(
            "CommandRunOptions",
            field_string("cancellation_configured", bool_string(self.configured_cancellation().is_some())),
            field_string("stdout_file", redacted_option_string(self.configured_stdout_file().is_some())),
            field_string("stderr_file", redacted_option_string(self.configured_stderr_file().is_some())),
        )
    }
}

/// A struct rendering with any number of fields.
pub open spec fn debug_struct(name: Seq<char>, fields: Seq<Seq<char>>) -> Seq<char> {
    name + " { "@ + comma_joined(fields) + " }"@
}

fn debug_struct_string(name: &str, fields: Vec<String>) -> (text: String)
    requires
        fields@.len() > 0,
    ensures
        text@ == debug_struct(name@, fields@.map_values(|field: String| field@)),
{
    let mut text = String::from_str(name).concat(" { ");
    let ghost all = fields@.map_values(|field: String| field@);
    let mut index: usize = 0;
    while index < fields.len()
        invariant
            index <= fields@.len(),
            all == fields@.map_values(|field: String| field@),
            text@ == name@ + " { "@ + comma_joined(all.subrange(0, index as int)),
        decreases fields@.len() - index,
    {
        let ghost before = all.subrange(0, index as int);
        let ghost after = all.subrange(0, index + 1);
        proof {
            assert(after.drop_last() =~= before);
            assert(after.last() == fields@[index as int]@);
        }
        if index > 0 {
            text.append(", ");
        }
        text.append(fields[index].as_str());
        proof {
            if index == 0 {
                assert(comma_joined(before) =~= Seq::<char>::empty());
                assert(comma_joined(after) == after[0]);
            } else {
                assert(comma_joined(after) == comma_joined(before) + ", "@ + after.last());
            }
        }
        index = index + 1;
    }
    proof {
        assert(all.subrange(0, fields@.len() as int) =~= all);
    }
    text.append(" }");
    text
}

/// Renders the redaction policy in debug form. The policy is opaque to the
/// library, so nothing is stated about the text.
#[verifier::external_body]
fn policy_debug(policy: &RedactionPolicy) -> String {
    format!("{:?}", policy)
}

/// An optional limit as it prints in debug form.
pub open spec fn optional_limit_text(limit: Option<usize>) -> Seq<char> {
    match limit {
        Some(value) => "Some("@ + decimal_text(value as int) + ")"@,
        None => "None"@,
    }
}

/// An optional timeout as it prints in debug form.
pub open spec fn optional_timeout_text(timeout: Option<TimeSpan>) -> Seq<char> {
    match timeout {
        Some(span) => "Some("@ + duration_debug_text(span.view_nanos()) + ")"@,
        None => "None"@,
    }
}

fn optional_limit_string(limit: Option<usize>) -> (text: String)
    ensures
        text@ == optional_limit_text(limit),
{
    match limit {
        Some(value) => String::from_str("Some(").concat(crate::diagnostics::decimal_string(value as i128).as_str()).concat(
            ")",
        ),
        None => String::from_str("None"),
    }
}

fn optional_timeout_string(timeout: Option<TimeSpan>) -> (text: String)
    ensures
        text@ == optional_timeout_text(timeout),
{
    match timeout {
        Some(span) => String::from_str("Some(").concat(span.debug_text().as_str()).concat(")"),
        None => String::from_str("None"),
    }
}

/// The debug rendering of a runner, given the rendering of its redaction
/// policy; the working directory is never shown.
pub open spec fn runner_debug(runner: CommandRunner, policy_text: Seq<char>) -> Seq<char> {
    debug_struct(
        "CommandRunner"@,
        seq![
            field("timeout"@, optional_timeout_text(runner.spec_timeout())),
            field("timer"@, "\"<dyn Timer>\""@),
            field("working_directory"@, redacted_option_text(runner.spec_working_directory().is_some())),
            field("success_exit_codes"@, codes_text(runner.spec_success_exit_codes())),
            field("disable_logging"@, bool_text(runner.spec_disable_logging())),
            field("fail_on_output_truncation"@, bool_text(runner.spec_fail_on_output_truncation())),
            field("diagnostic_redaction_policy"@, policy_text),
            field("max_stdout_bytes"@, optional_limit_text(runner.spec_max_stdout_bytes())),
            field("max_stderr_bytes"@, optional_limit_text(runner.spec_max_stderr_bytes())),
        ],
    )
}

impl CommandRunner {
    /// The debug rendering of this runner's configuration, with the working
    /// directory redacted and the timer shown as `"<dyn Timer>"`; the
    /// policy's own rendering is not stated.
    pub fn debug_text(&self) -> (text: String)
        ensures
            exists|policy_text: Seq<char>| #[trigger] runner_debug(*self, policy_text) == text@,
    {
        let mut fields: Vec<String> = Vec::new();
        fields.push(field_string("timeout", optional_timeout_string(self.configured_timeout())));
        fields.push(field_string("timer", String::from_str("\"<dyn Timer>\"")));
        fields.push(
            field_string(
                "working_directory",
                redacted_option_string(self.configured_working_directory().is_some()),
            ),
        );
        fields.push(
            field_string("success_exit_codes", code_list_string(self.configured_success_exit_codes())),
        );
        fields.push(field_string("disable_logging", bool_string(self.is_logging_disabled())));
        fields.push(
            field_string("fail_on_output_truncation", bool_string(self.is_output_truncation_failure_enabled())),
        );
        let policy_text = policy_debug(self.configured_diagnostic_redaction_policy());
        let ghost rendered_policy = policy_text@;
        fields.push(field_string("diagnostic_redaction_policy", policy_text));
        fields.push(field_string("max_stdout_bytes", optional_limit_string(self.configured_max_stdout_bytes())));
        fields.push(field_string("max_stderr_bytes", optional_limit_string(self.configured_max_stderr_bytes())));
        let ghost expected = seq![
            field("timeout"@, optional_timeout_text(self.spec_timeout())),
            field("timer"@, "\"<dyn Timer>\""@),
            field("working_directory"@, redacted_option_text(self.spec_working_directory().is_some())),
            field("success_exit_codes"@, codes_text(self.spec_success_exit_codes())),
            field("disable_logging"@, bool_text(self.spec_disable_logging())),
            field("fail_on_output_truncation"@, bool_text(self.spec_fail_on_output_truncation())),
            field("diagnostic_redaction_policy"@, rendered_policy),
            field("max_stdout_bytes"@, optional_limit_text(self.spec_max_stdout_bytes())),
            field("max_stderr_bytes"@, optional_limit_text(self.spec_max_stderr_bytes())),
        ];
        proof {
            assert(fields@.map_values(|field: String| field@) =~= expected);
        }
        let text = debug_struct_string("CommandRunner", fields);
        proof {
            assert(runner_debug(*self, rendered_policy) == text@);
        }
        text
    }
}

/// A rendering that names `name`: the name alone, or the name followed by
/// ` { ` and its fields.
pub open spec fn rendering_names(text: Seq<char>, name: Seq<char>) -> bool {
    text == name || (name + " { "@).is_prefix_of(text)
}

/// Struct renderings start with their name followed by ` { `.
proof fn lemma_struct_renderings_name_their_struct()
    ensures
        forall|name: Seq<char>, a: Seq<char>| (name + " { "@).is_prefix_of(#[trigger] struct1(name, a)),
        forall|name: Seq<char>, a: Seq<char>, b: Seq<char>|
            (name + " { "@).is_prefix_of(#[trigger] struct2(name, a, b)),
        forall|name: Seq<char>, a: Seq<char>, b: Seq<char>, c: Seq<char>|
            (name + " { "@).is_prefix_of(#[trigger] struct3(name, a, b, c)),
{
    assert forall|name: Seq<char>, a: Seq<char>| (name + " { "@).is_prefix_of(#[trigger] struct1(name, a)) by {
        let head = name + " { "@;
        assert(struct1(name, a) =~= head + (a + " }"@));
        assert((head + (a + " }"@)).subrange(0, head.len() as int) =~= head);
    }
    assert forall|name: Seq<char>, a: Seq<char>, b: Seq<char>|
        (name + " { "@).is_prefix_of(#[trigger] struct2(name, a, b)) by {
        let head = name + " { "@;
        assert(struct2(name, a, b) =~= head + (a + ", "@ + b + " }"@));
        assert((head + (a + ", "@ + b + " }"@)).subrange(0, head.len() as int) =~= head);
    }
    assert forall|name: Seq<char>, a: Seq<char>, b: Seq<char>, c: Seq<char>|
        (name + " { "@).is_prefix_of(#[trigger] struct3(name, a, b, c)) by {
        let head = name + " { "@;
        assert(struct3(name, a, b, c) =~= head + (a + ", "@ + b + ", "@ + c + " }"@));
        assert((head + (a + ", "@ + b + ", "@ + c + " }"@)).subrange(0, head.len() as int) =~= head);
    }
}

/// A reason's kind is the category named after the reason: the reason's
/// debug rendering is the kind's name alone, or the kind's name followed by
/// ` { ` and the reason's fields.
pub proof fn lemma_reason_kind_is_named_after_reason(reason: CommandErrorReason, raw_paths: Seq<Seq<char>>)
    ensures
        rendering_names(reason_debug(reason, raw_paths), error_kind_name(reason_kind(reason))),
{
    lemma_struct_renderings_name_their_struct();
}

/// An error's kind is the category named after its primary reason: the
/// reason's debug rendering is the kind's name alone, or the kind's name
/// followed by ` { ` and the reason's fields.
pub proof fn lemma_error_kind_is_named_after_reason(error: CommandError, raw_paths: Seq<Seq<char>>)
    ensures
        rendering_names(reason_debug(error.spec_reason(), raw_paths), error_kind_name(error.spec_kind())),
{
    lemma_reason_kind_is_named_after_reason(error.spec_reason(), raw_paths);
}

} // verus!
