//! Human-readable messages of command errors.
//!
//! Paths never appear in a message: every configured path is shown as
//! `<redacted path>`. Failure sources appear as their rendered messages,
//! durations in the standard debug form, and exit codes in decimal.

use vstd::prelude::*;
use vstd::string::StringExecFns;

use crate::stream_name;
use crate::time_span::duration_debug_text;
use crate::CommandError;
use crate::CommandErrorReason;
use crate::CommandOutput;

verus! {

/// The character of a decimal digit.
pub open spec fn digit_char(digit: nat) -> char {
    (digit + 48) as char
}

/// The decimal digits of a natural number, most significant first.
pub open spec fn natural_text(value: nat) -> Seq<char>
    decreases value,
{
    if value < 10 {
        seq![digit_char(value)]
    } else {
        natural_text(value / 10).push(digit_char(value % 10))
    }
}

/// The decimal text of an integer: its digits, after a minus sign when it
/// is negative.
pub open spec fn decimal_text(value: int) -> Seq<char> {
    if value < 0 {
        seq!['-'] + natural_text((-value) as nat)
    } else {
        natural_text(value as nat)
    }
}

/// The text of one decimal digit.
fn digit_text(digit: u128) -> (text: &'static str)
    requires
        digit < 10,
    ensures
        text@ == seq![digit_char(digit as nat)],
{
    proof {
        reveal_strlit("0");
        reveal_strlit("1");
        reveal_strlit("2");
        reveal_strlit("3");
        reveal_strlit("4");
        reveal_strlit("5");
        reveal_strlit("6");
        reveal_strlit("7");
        reveal_strlit("8");
        reveal_strlit("9");
    }
    if digit == 0 {
        "0"
    } else if digit == 1 {
        "1"
    } else if digit == 2 {
        "2"
    } else if digit == 3 {
        "3"
    } else if digit == 4 {
        "4"
    } else if digit == 5 {
        "5"
    } else if digit == 6 {
        "6"
    } else if digit == 7 {
        "7"
    } else if digit == 8 {
        "8"
    } else {
        "9"
    }
}

/// Renders a natural number in decimal, most significant digit first.
fn natural_string(value: u128) -> (text: String)
    ensures
        text@ == natural_text(value as nat),
    decreases value,
{
    if value < 10 {
        String::from_str(digit_text(value))
    } else {
        let mut text = natural_string(value / 10);
        text.append(digit_text(value % 10));
        text
    }
}

/// Renders an integer in decimal: an optional minus sign followed by the
/// digits without leading zeros, as `i128`'s `Display` does.
pub(crate) fn decimal_string(value: i128) -> (text: String)
    ensures
        text@ == decimal_text(value as int),
{
    if value < 0 {
        let magnitude: u128 = ((-(value + 1)) as u128) + 1;
        assert(magnitude as int == -(value as int));
        let mut text = String::from_str("-");
        proof {
            reveal_strlit("-");
        }
        let digits = natural_string(magnitude);
        text.append(digits.as_str());
        text
    } else {
        natural_string(value as u128)
    }
}

/// Texts joined with `", "` between neighbours.
pub open spec fn comma_joined(items: Seq<Seq<char>>) -> Seq<char>
    decreases items.len(),
{
    if items.len() == 0 {
        seq![]
    } else if items.len() == 1 {
        items[0]
    } else {
        comma_joined(items.drop_last()) + ", "@ + items.last()
    }
}

/// The decimal texts of exit codes.
pub open spec fn code_texts(codes: Seq<i32>) -> Seq<Seq<char>> {
    codes.map_values(|code: i32| decimal_text(code as int))
}

/// A list of exit codes as it prints in debug form: `[0, 1]`.
pub open spec fn code_list_text(codes: Seq<i32>) -> Seq<char> {
    "["@ + comma_joined(code_texts(codes)) + "]"@
}

/// An optional exit code as it prints in debug form: `Some(3)` or `None`.
pub open spec fn optional_code_text(code: Option<i32>) -> Seq<char> {
    match code {
        Some(value) => "Some("@ + decimal_text(value as int) + ")"@,
        None => "None"@,
    }
}

/// Renders a list of exit codes in debug form.
pub fn code_list_string(codes: &[i32]) -> (text: String)
    ensures
        text@ == code_list_text(codes@),
{
    let mut text = String::from_str("[");
    let mut index: usize = 0;
    while index < codes.len()
        invariant
            index <= codes@.len(),
            text@ == "["@ + comma_joined(code_texts(codes@.subrange(0, index as int))),
        decreases codes@.len() - index,
    {
        let ghost before = code_texts(codes@.subrange(0, index as int));
        let ghost after = code_texts(codes@.subrange(0, index + 1));
        proof {
            assert(after.drop_last() =~= before);
            assert(after.last() == decimal_text(codes@[index as int] as int));
        }
        let digits = decimal_string(codes[index] as i128);
        if index > 0 {
            text.append(", ");
        }
        text.append(digits.as_str());
        proof {
            if index == 0 {
                assert(before.len() == 0);
                assert(after.len() == 1);
                assert(comma_joined(after) == after[0]);
                assert(comma_joined(before) =~= Seq::<char>::empty());
            } else {
                assert(comma_joined(after) == comma_joined(before) + ", "@ + after.last());
            }
        }
        index = index + 1;
    }
    proof {
        assert(codes@.subrange(0, codes@.len() as int) =~= codes@);
    }
    text.append("]");
    text
}

/// Renders an optional exit code in debug form.
pub fn optional_code_string(code: Option<i32>) -> (text: String)
    ensures
        text@ == optional_code_text(code),
{
    match code {
        Some(value) => String::from_str("Some(").concat(decimal_string(value as i128).as_str()).concat(")"),
        None => String::from_str("None"),
    }
}

/// How an unexpected exit is described: by the terminating signal when the
/// retained output records one, otherwise by the exit code.
pub open spec fn exit_detail(exit_code: Option<i32>, output: Option<CommandOutput>) -> Seq<char> {
    if output.is_some() && output.unwrap().spec_status().spec_signal().is_some() {
        "signal "@ + decimal_text(output.unwrap().spec_status().spec_signal().unwrap() as int)
    } else {
        "code "@ + optional_code_text(exit_code)
    }
}

/// The message of a primary reason for a command.
pub open spec fn reason_message(command: Seq<char>, reason: CommandErrorReason, output: Option<CommandOutput>) -> Seq<
    char,
> {
    match reason {
        CommandErrorReason::SpawnFailed { source } => "failed to spawn command `"@ + command + "`: "@
            + source.message@,
        CommandErrorReason::WaitFailed { source } => "failed to wait for command `"@ + command + "`: "@
            + source.message@,
        CommandErrorReason::CancelledBeforeStart => "command `"@ + command + "` was cancelled before it started"@,
        CommandErrorReason::KillFailed { timeout, process_tree_source, child_source } => "failed to kill command `"@
            + command + "` after timeout "@ + duration_debug_text(timeout.view_nanos()) + ": "@
            + process_tree_source.message@ + "; direct child: "@ + child_source.message@,
        CommandErrorReason::ReadOutputFailed { stream, source } => "failed to read "@ + stream_name(stream)
            + " for command `"@ + command + "`: "@ + source.message@,
        CommandErrorReason::OpenInputFailed { source, .. } => "failed to open stdin file `<redacted path>` for command `"@
            + command + "`: "@ + source.message@,
        CommandErrorReason::NonRegularInputFile { .. } => "stdin path `<redacted path>` for command `"@ + command
            + "` is not an ordinary file"@,
        CommandErrorReason::OpenOutputFailed { stream, source, .. } => "failed to open "@ + stream_name(stream)
            + " file `<redacted path>` for command `"@ + command + "`: "@ + source.message@,
        CommandErrorReason::NonRegularOutputFile { stream, .. } => stream_name(stream)
            + " path `<redacted path>` for command `"@ + command + "` is not an ordinary file"@,
        CommandErrorReason::InputOutputConflict { output_stream, .. } => "stdin file '<redacted path>' conflicts with "@
            + stream_name(output_stream) + " file '<redacted path>' for command '"@ + command + "'"@,
        CommandErrorReason::OutputFilesConflict { .. } =>
            "stdout file '<redacted path>' conflicts with stderr file '<redacted path>' for command '"@ + command
            + "'"@,
        CommandErrorReason::InspectIoFileFailed { source, .. } =>
            "failed to inspect I/O file '<redacted path>' for command '"@ + command + "': "@ + source.message@,
        CommandErrorReason::StartInputThreadFailed { source } => "failed to start stdin writer for command '"@
            + command + "': "@ + source.message@,
        CommandErrorReason::StartOutputThreadFailed { stream, source } => "failed to start "@ + stream_name(stream)
            + " reader for command '"@ + command + "': "@ + source.message@,
        CommandErrorReason::TimeFailed { source } => "time handling failed for command '"@ + command + "': "@
            + source.message@,
        CommandErrorReason::WriteInputFailed { source } => "failed to write stdin for command `"@ + command + "`: "@
            + source.message@,
        CommandErrorReason::WriteOutputFailed { stream, source, .. } => "failed to write "@ + stream_name(stream)
            + " for command `"@ + command + "` to `<redacted path>`: "@ + source.message@,
        CommandErrorReason::TimedOut { timeout } => "command `"@ + command + "` timed out after "@
            + duration_debug_text(timeout.view_nanos()),
        CommandErrorReason::Cancelled => "command `"@ + command + "` was cancelled"@,
        CommandErrorReason::CancelFailed { process_tree_source, child_source } => "failed to cancel command `"@
            + command + "`: "@ + process_tree_source.message@ + "; direct child: "@ + child_source.message@,
        CommandErrorReason::OutputTruncated => "command `"@ + command
            + "` completed successfully, but captured output was truncated"@,
        CommandErrorReason::UnexpectedExit { exit_code, expected } => "command `"@ + command + "` exited with "@
            + exit_detail(exit_code, output) + "; expected one of "@ + code_list_text(expected@),
    }
}

/// The suffix counting cleanup failures: empty when there are none,
/// otherwise `; N cleanup failure(s)`.
pub open spec fn cleanup_suffix(count: nat) -> Seq<char> {
    if count == 0 {
        seq![]
    } else {
        "; "@ + decimal_text(count as int) + " cleanup failure(s)"@
    }
}

/// The full message of an error: the primary reason's message, then the
/// count of cleanup failures when there are any.
pub open spec fn error_message(error: CommandError) -> Seq<char> {
    reason_message(error.spec_command(), error.spec_reason(), error.spec_output()) + cleanup_suffix(
        error.spec_cleanup_failures().len(),
    )
}

/// Whether `text` holds `part` as a contiguous piece.
pub open spec fn mentions(text: Seq<char>, part: Seq<char>) -> bool {
    exists|start: int|
        0 <= start && start + part.len() <= text.len() && #[trigger] text.subrange(start, start + part.len())
            == part
}

/// A text made of a piece between two others mentions that piece.
proof fn lemma_mentions_middle(before: Seq<char>, part: Seq<char>, after: Seq<char>)
    ensures
        mentions(before + part + after, part),
{
    let text = before + part + after;
    assert(text.subrange(before.len() as int, (before.len() + part.len()) as int) =~= part);
}

/// Appending to a text keeps every piece it mentions.
proof fn lemma_mentions_extend(text: Seq<char>, part: Seq<char>, more: Seq<char>)
    requires
        mentions(text, part),
    ensures
        mentions(text + more, part),
{
    let start = choose|start: int|
        0 <= start && start + part.len() <= text.len() && #[trigger] text.subrange(start, start + part.len())
            == part;
    assert((text + more).subrange(start, start + part.len()) =~= text.subrange(start, start + part.len()));
}

/// Law: the message of every primary reason names the command it is about.
pub proof fn lemma_reason_message_names_command(
    command: Seq<char>,
    reason: CommandErrorReason,
    output: Option<CommandOutput>,
)
    ensures
        mentions(reason_message(command, reason, output), command),
{
    let (before, after): (Seq<char>, Seq<char>) = match reason {
        CommandErrorReason::SpawnFailed { source } => ("failed to spawn command `"@, "`: "@ + source.message@),
        CommandErrorReason::WaitFailed { source } => ("failed to wait for command `"@, "`: "@ + source.message@),
        CommandErrorReason::CancelledBeforeStart => ("command `"@, "` was cancelled before it started"@),
        CommandErrorReason::KillFailed { timeout, process_tree_source, child_source } => (
            "failed to kill command `"@,
            "` after timeout "@ + duration_debug_text(timeout.view_nanos()) + ": "@ + process_tree_source.message@
                + "; direct child: "@ + child_source.message@,
        ),
        CommandErrorReason::ReadOutputFailed { stream, source } => (
            "failed to read "@ + stream_name(stream) + " for command `"@,
            "`: "@ + source.message@,
        ),
        CommandErrorReason::OpenInputFailed { source, .. } => (
            "failed to open stdin file `<redacted path>` for command `"@,
            "`: "@ + source.message@,
        ),
        CommandErrorReason::NonRegularInputFile { .. } => (
            "stdin path `<redacted path>` for command `"@,
            "` is not an ordinary file"@,
        ),
        CommandErrorReason::OpenOutputFailed { stream, source, .. } => (
            "failed to open "@ + stream_name(stream) + " file `<redacted path>` for command `"@,
            "`: "@ + source.message@,
        ),
        CommandErrorReason::NonRegularOutputFile { stream, .. } => (
            stream_name(stream) + " path `<redacted path>` for command `"@,
            "` is not an ordinary file"@,
        ),
        CommandErrorReason::InputOutputConflict { output_stream, .. } => (
            "stdin file '<redacted path>' conflicts with "@ + stream_name(output_stream)
                + " file '<redacted path>' for command '"@,
            "'"@,
        ),
        CommandErrorReason::OutputFilesConflict { .. } => (
            "stdout file '<redacted path>' conflicts with stderr file '<redacted path>' for command '"@,
            "'"@,
        ),
        CommandErrorReason::InspectIoFileFailed { source, .. } => (
            "failed to inspect I/O file '<redacted path>' for command '"@,
            "': "@ + source.message@,
        ),
        CommandErrorReason::StartInputThreadFailed { source } => (
            "failed to start stdin writer for command '"@,
            "': "@ + source.message@,
        ),
        CommandErrorReason::StartOutputThreadFailed { stream, source } => (
            "failed to start "@ + stream_name(stream) + " reader for command '"@,
            "': "@ + source.message@,
        ),
        CommandErrorReason::TimeFailed { source } => ("time handling failed for command '"@, "': "@ + source.message@),
        CommandErrorReason::WriteInputFailed { source } => (
            "failed to write stdin for command `"@,
            "`: "@ + source.message@,
        ),
        CommandErrorReason::WriteOutputFailed { stream, source, .. } => (
            "failed to write "@ + stream_name(stream) + " for command `"@,
            "` to `<redacted path>`: "@ + source.message@,
        ),
        CommandErrorReason::TimedOut { timeout } => (
            "command `"@,
            "` timed out after "@ + duration_debug_text(timeout.view_nanos()),
        ),
        CommandErrorReason::Cancelled => ("command `"@, "` was cancelled"@),
        CommandErrorReason::CancelFailed { process_tree_source, child_source } => (
            "failed to cancel command `"@,
            "`: "@ + process_tree_source.message@ + "; direct child: "@ + child_source.message@,
        ),
        CommandErrorReason::OutputTruncated => (
            "command `"@,
            "` completed successfully, but captured output was truncated"@,
        ),
        CommandErrorReason::UnexpectedExit { exit_code, expected } => (
            "command `"@,
            "` exited with "@ + exit_detail(exit_code, output) + "; expected one of "@ + code_list_text(expected@),
        ),
    };
    lemma_mentions_middle(before, command, after);
    assert(reason_message(command, reason, output) =~= before + command + after);
}

/// Law: every error message names the command it is about, whatever
/// cleanup failures were recorded.
pub proof fn lemma_error_message_names_command(error: CommandError)
    ensures
        mentions(error_message(error), error.spec_command()),
{
    lemma_reason_message_names_command(error.spec_command(), error.spec_reason(), error.spec_output());
    lemma_mentions_extend(
        reason_message(error.spec_command(), error.spec_reason(), error.spec_output()),
        error.spec_command(),
        cleanup_suffix(error.spec_cleanup_failures().len()),
    );
}

/// The reason with every configured path replaced by one and the same
/// arbitrary path.
pub open spec fn without_paths(reason: CommandErrorReason) -> CommandErrorReason {
    let any = arbitrary::<std::path::PathBuf>();
    match reason {
        CommandErrorReason::OpenInputFailed { source, .. } => CommandErrorReason::OpenInputFailed { path: any, source },
        CommandErrorReason::NonRegularInputFile { .. } => CommandErrorReason::NonRegularInputFile { path: any },
        CommandErrorReason::OpenOutputFailed { stream, source, .. } => CommandErrorReason::OpenOutputFailed {
            stream,
            path: any,
            source,
        },
        CommandErrorReason::NonRegularOutputFile { stream, .. } => CommandErrorReason::NonRegularOutputFile {
            stream,
            path: any,
        },
        CommandErrorReason::InputOutputConflict { output_stream, .. } => CommandErrorReason::InputOutputConflict {
            input_path: any,
            output_stream,
            output_path: any,
        },
        CommandErrorReason::OutputFilesConflict { .. } => CommandErrorReason::OutputFilesConflict {
            stdout_path: any,
            stderr_path: any,
        },
        CommandErrorReason::InspectIoFileFailed { source, .. } => CommandErrorReason::InspectIoFileFailed {
            path: any,
            source,
        },
        CommandErrorReason::WriteOutputFailed { stream, source, .. } => CommandErrorReason::WriteOutputFailed {
            stream,
            path: any,
            source,
        },
        other => other,
    }
}

/// Law: a message never depends on the configured paths a reason carries,
/// so no path can appear in it.
pub proof fn lemma_reason_message_ignores_paths(
    command: Seq<char>,
    reason: CommandErrorReason,
    output: Option<CommandOutput>,
)
    ensures
        reason_message(command, reason, output) == reason_message(command, without_paths(reason), output),
{
}

/// Renders how an unexpected exit is described.
fn exit_detail_string(exit_code: Option<i32>, output: Option<&CommandOutput>) -> (text: String)
    ensures
        text@ == exit_detail(
            exit_code,
            match output {
                Some(output) => Some(*output),
                None => None,
            },
        ),
{
    let signal = match output {
        Some(output) => output.termination_signal(),
        None => None,
    };
    match signal {
        Some(number) => String::from_str("signal ").concat(decimal_string(number as i128).as_str()),
        None => String::from_str("code ").concat(optional_code_string(exit_code).as_str()),
    }
}

/// Renders the message of a primary reason.
pub fn reason_message_string(command: &str, reason: &CommandErrorReason, output: Option<&CommandOutput>) -> (text:
    String)
    ensures
        text@ == reason_message(
            command@,
            *reason,
            match output {
                Some(output) => Some(*output),
                None => None,
            },
        ),
{
    match reason {
        CommandErrorReason::SpawnFailed { source } => String::from_str("failed to spawn command `").concat(
            command,
        ).concat("`: ").concat(source.message.as_str()),
        CommandErrorReason::WaitFailed { source } => String::from_str("failed to wait for command `").concat(
            command,
        ).concat("`: ").concat(source.message.as_str()),
        CommandErrorReason::CancelledBeforeStart => String::from_str("command `").concat(command).concat(
            "` was cancelled before it started",
        ),
        CommandErrorReason::KillFailed { timeout, process_tree_source, child_source } => String::from_str(
            "failed to kill command `",
        ).concat(command).concat("` after timeout ").concat(timeout.debug_text().as_str()).concat(": ").concat(
            process_tree_source.message.as_str(),
        ).concat("; direct child: ").concat(child_source.message.as_str()),
        CommandErrorReason::ReadOutputFailed { stream, source } => String::from_str("failed to read ").concat(
            stream.as_str(),
        ).concat(" for command `").concat(command).concat("`: ").concat(source.message.as_str()),
        CommandErrorReason::OpenInputFailed { source, .. } => String::from_str(
            "failed to open stdin file `<redacted path>` for command `",
        ).concat(command).concat("`: ").concat(source.message.as_str()),
        CommandErrorReason::NonRegularInputFile { .. } => String::from_str(
            "stdin path `<redacted path>` for command `",
        ).concat(command).concat("` is not an ordinary file"),
        CommandErrorReason::OpenOutputFailed { stream, source, .. } => String::from_str("failed to open ").concat(
            stream.as_str(),
        ).concat(" file `<redacted path>` for command `").concat(command).concat("`: ").concat(
            source.message.as_str(),
        ),
        CommandErrorReason::NonRegularOutputFile { stream, .. } => String::from_str(stream.as_str()).concat(
            " path `<redacted path>` for command `",
        ).concat(command).concat("` is not an ordinary file"),
        CommandErrorReason::InputOutputConflict { output_stream, .. } => String::from_str(
            "stdin file '<redacted path>' conflicts with ",
        ).concat(output_stream.as_str()).concat(" file '<redacted path>' for command '").concat(command).concat(
            "'",
        ),
        CommandErrorReason::OutputFilesConflict { .. } => String::from_str(
            "stdout file '<redacted path>' conflicts with stderr file '<redacted path>' for command '",
        ).concat(command).concat("'"),
        CommandErrorReason::InspectIoFileFailed { source, .. } => String::from_str(
            "failed to inspect I/O file '<redacted path>' for command '",
        ).concat(command).concat("': ").concat(source.message.as_str()),
        CommandErrorReason::StartInputThreadFailed { source } => String::from_str(
            "failed to start stdin writer for command '",
        ).concat(command).concat("': ").concat(source.message.as_str()),
        CommandErrorReason::StartOutputThreadFailed { stream, source } => String::from_str(
            "failed to start ",
        ).concat(stream.as_str()).concat(" reader for command '").concat(command).concat("': ").concat(
            source.message.as_str(),
        ),
        CommandErrorReason::TimeFailed { source } => String::from_str("time handling failed for command '").concat(
            command,
        ).concat("': ").concat(source.message.as_str()),
        CommandErrorReason::WriteInputFailed { source } => String::from_str(
            "failed to write stdin for command `",
        ).concat(command).concat("`: ").concat(source.message.as_str()),
        CommandErrorReason::WriteOutputFailed { stream, source, .. } => String::from_str("failed to write ").concat(
            stream.as_str(),
        ).concat(" for command `").concat(command).concat("` to `<redacted path>`: ").concat(
            source.message.as_str(),
        ),
        CommandErrorReason::TimedOut { timeout } => String::from_str("command `").concat(command).concat(
            "` timed out after ",
        ).concat(timeout.debug_text().as_str()),
        CommandErrorReason::Cancelled => String::from_str("command `").concat(command).concat("` was cancelled"),
        CommandErrorReason::CancelFailed { process_tree_source, child_source } => String::from_str(
            "failed to cancel command `",
        ).concat(command).concat("`: ").concat(process_tree_source.message.as_str()).concat(
            "; direct child: ",
        ).concat(child_source.message.as_str()),
        CommandErrorReason::OutputTruncated => String::from_str("command `").concat(command).concat(
            "` completed successfully, but captured output was truncated",
        ),
        CommandErrorReason::UnexpectedExit { exit_code, expected } => String::from_str("command `").concat(
            command,
        ).concat("` exited with ").concat(exit_detail_string(*exit_code, output).as_str()).concat(
            "; expected one of ",
        ).concat(code_list_string(expected.as_slice()).as_str()),
    }
}

impl CommandError {
    /// The human-readable message of this error: the primary reason's
    /// message, followed by `; N cleanup failure(s)` when cleanup failures
    /// were recorded.
    pub fn message(&self) -> (text: String)
        ensures
            text@ == error_message(*self),
    {
        let text = reason_message_string(self.command(), self.reason(), self.output());
        let count = self.cleanup_failures().len();
        if count == 0 {
            proof {
                assert(text@ + cleanup_suffix(0) =~= text@);
            }
            text
        } else {
            text.concat("; ").concat(decimal_string(count as i128).as_str()).concat(" cleanup failure(s)")
        }
    }
}

} // verus!
