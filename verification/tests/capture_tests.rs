use std::cell::Cell;
use std::path::Path;
use std::path::PathBuf;
use std::rc::Rc;

use qubit_command::capture::read_output;
use qubit_command::capture::RecordedSource;
use qubit_command::capture::CapturedOutput;
use qubit_command::capture::OutputCaptureError;
use qubit_command::capture::OutputCaptureOptions;
use qubit_command::capture::OutputSink;
use qubit_command::capture::OutputSource;
use qubit_command::capture::OutputTee;
use qubit_command::IoFailure;
use qubit_command::IoFailureKind;

/// Unwraps a value whose failure side has no `Debug` rendering.
trait Must<T> {
    fn must(self, message: &str) -> T;
}

impl<T> Must<T> for Option<T> {
    fn must(self, message: &str) -> T {
        match self {
            Some(value) => value,
            None => panic!("{message}"),
        }
    }
}

impl<T, E> Must<T> for Result<T, E> {
    fn must(self, message: &str) -> T {
        match self {
            Ok(value) => value,
            Err(_) => panic!("{message}"),
        }
    }
}


fn other(message: &str) -> IoFailure {
    IoFailure::new(IoFailureKind::Other, None, message.to_string())
}

fn os_failure(code: i32) -> IoFailure {
    IoFailure::new(IoFailureKind::Other, Some(code), format!("os error {code}"))
}

/// An in-memory stream read in chunks.
struct BytesSource {
    data: Vec<u8>,
    position: usize,
}

impl BytesSource {
    fn new(data: &[u8]) -> Self {
        BytesSource { data: data.to_vec(), position: 0 }
    }

    fn next_chunk(&mut self, max_len: usize) -> Vec<u8> {
        let end = (self.position + max_len).min(self.data.len());
        let chunk = self.data[self.position..end].to_vec();
        self.position = end;
        chunk
    }
}

impl OutputSource for BytesSource {
    fn read_chunk(&mut self, max_len: usize) -> Result<Vec<u8>, IoFailure> {
        Ok(self.next_chunk(max_len))
    }
}

/// Yields a prefix, then fails instead of reporting end of file.
struct FailingReader {
    prefix: BytesSource,
}

impl OutputSource for FailingReader {
    fn read_chunk(&mut self, max_len: usize) -> Result<Vec<u8>, IoFailure> {
        let chunk = self.prefix.next_chunk(max_len);
        if chunk.is_empty() {
            Err(other("injected read failure"))
        } else {
            Ok(chunk)
        }
    }
}

/// A tee whose write fails, or whose flush fails.
struct FailingWriter {
    fail_write: bool,
}

impl OutputSink for FailingWriter {
    fn write_all(&mut self, _bytes: &[u8]) -> Result<(), IoFailure> {
        if self.fail_write {
            Err(other("write failure"))
        } else {
            Ok(())
        }
    }

    fn flush(&mut self) -> Result<(), IoFailure> {
        if self.fail_write {
            Ok(())
        } else {
            Err(other("flush failure"))
        }
    }
}

/// A tee that keeps everything written to it.
struct RecordingWriter {
    written: Rc<Cell<Vec<u8>>>,
    flushed: Rc<Cell<bool>>,
}

impl OutputSink for RecordingWriter {
    fn write_all(&mut self, bytes: &[u8]) -> Result<(), IoFailure> {
        let mut all = self.written.take();
        all.extend_from_slice(bytes);
        self.written.set(all);
        Ok(())
    }

    fn flush(&mut self) -> Result<(), IoFailure> {
        self.flushed.set(true);
        Ok(())
    }
}

fn no_tee() -> Option<OutputTee<FailingWriter>> {
    None
}

#[test]
fn test_output_collector_read_failure_preserves_partial_output() {
    let error = read_output(
        &mut RecordedSource::new(FailingReader { prefix: BytesSource::new(b"partial") }),
        OutputCaptureOptions::new(None, no_tee()),
    )
    .err().must("read failure should be returned");

    let OutputCaptureError::Read { output, .. } = error else {
        panic!("expected output read failure");
    };
    assert_eq!(output.bytes, b"partial");
    assert!(!output.complete);
}

#[test]
fn test_output_collector_write_failure_preserves_tee_path() {
    let error = read_output(
        &mut RecordedSource::new(BytesSource::new(b"output")),
        OutputCaptureOptions::new(
            None,
            Some(OutputTee::new(FailingWriter { fail_write: true }, PathBuf::from("tee-write.log"))),
        ),
    )
    .err().must("write failure should be returned");

    let OutputCaptureError::Write { path, .. } = error else {
        panic!("expected tee write failure");
    };
    assert_eq!(path, Path::new("tee-write.log"));
}

#[test]
fn test_output_collector_flush_failure_preserves_tee_path() {
    let error = read_output(
        &mut RecordedSource::new(BytesSource::new(b"output")),
        OutputCaptureOptions::new(
            None,
            Some(OutputTee::new(FailingWriter { fail_write: false }, PathBuf::from("tee-flush.log"))),
        ),
    )
    .err().must("flush failure should be returned");

    let OutputCaptureError::Write { path, .. } = error else {
        panic!("expected tee flush failure");
    };
    assert_eq!(path, Path::new("tee-flush.log"));
}

/// Chooses the observation immediately after the first tee write fails.
#[derive(Clone, Copy, Debug)]
enum AfterTeeFailure {
    CancelWithBytes,
    CancelInterrupted,
    CancelWouldBlock,
    CancelReadError,
    ReadError,
    Eof,
}

/// Produces a prefix, then cancels or fails.
struct ReaderAfterTeeFailure {
    prefix_sent: bool,
    cancelled: Rc<Cell<bool>>,
    outcome: AfterTeeFailure,
}

impl OutputSource for ReaderAfterTeeFailure {
    fn read_chunk(&mut self, _max_len: usize) -> Result<Vec<u8>, IoFailure> {
        if !self.prefix_sent {
            self.prefix_sent = true;
            return Ok(b"prefix".to_vec());
        }
        match self.outcome {
            AfterTeeFailure::ReadError => return Err(os_failure(9)),
            AfterTeeFailure::Eof => return Ok(Vec::new()),
            _ => self.cancelled.set(true),
        }
        match self.outcome {
            AfterTeeFailure::CancelWithBytes => Ok(b"suffix".to_vec()),
            AfterTeeFailure::CancelInterrupted => {
                Err(IoFailure::new(IoFailureKind::Interrupted, None, "interrupted".to_string()))
            }
            AfterTeeFailure::CancelWouldBlock => {
                Err(IoFailure::new(IoFailureKind::WouldBlock, None, "would block".to_string()))
            }
            _ => Err(os_failure(9)),
        }
    }

    fn is_cancelled(&self) -> bool {
        self.cancelled.get()
    }
}

fn capture_after_tee_failure(outcome: AfterTeeFailure) -> Result<CapturedOutput, OutputCaptureError> {
    let reader = ReaderAfterTeeFailure { prefix_sent: false, cancelled: Rc::new(Cell::new(false)), outcome };
    read_output(
        &mut RecordedSource::new(reader),
        OutputCaptureOptions::new(
            Some(8),
            Some(OutputTee::new(FailingWriter { fail_write: true }, PathBuf::from("failed-tee.log"))),
        ),
    )
}

#[test]
fn test_pending_tee_error_survives_every_read_cancellation() {
    for outcome in [
        AfterTeeFailure::CancelWithBytes,
        AfterTeeFailure::CancelInterrupted,
        AfterTeeFailure::CancelWouldBlock,
        AfterTeeFailure::CancelReadError,
    ] {
        let error = capture_after_tee_failure(outcome).err().must("pending tee error must survive cancellation");
        let OutputCaptureError::Write { path, source, output } = error else {
            panic!("expected retained tee error for {outcome:?}");
        };
        assert_eq!(path, Path::new("failed-tee.log"));
        assert_eq!(source.message(), "write failure");
        assert!(!output.complete, "cancelled stream must remain incomplete");
        if matches!(outcome, AfterTeeFailure::CancelWithBytes) {
            assert_eq!(output.bytes, b"prefixsu");
            assert!(output.truncated);
        } else {
            assert_eq!(output.bytes, b"prefix");
            assert!(!output.truncated);
        }
    }
}

#[test]
fn test_pending_tee_error_keeps_eof_complete() {
    let error = capture_after_tee_failure(AfterTeeFailure::Eof).err().must("tee failure must survive EOF");
    let OutputCaptureError::Write { output, .. } = error else {
        panic!("expected tee failure at EOF");
    };
    assert_eq!(output.bytes, b"prefix");
    assert!(output.complete, "tee failure does not undo observed pipe EOF");
}

#[test]
fn test_pending_tee_error_then_read_failure_keeps_both() {
    let error = capture_after_tee_failure(AfterTeeFailure::ReadError).err().must("both failures must be kept");
    let OutputCaptureError::ReadAfterWrite { path, write_source, read_source, output } = error else {
        panic!("expected a tee failure followed by a read failure");
    };
    assert_eq!(path, Path::new("failed-tee.log"));
    assert_eq!(write_source.message(), "write failure");
    assert_eq!(read_source.raw_os_error(), Some(9));
    assert_eq!(output.bytes, b"prefix");
    assert!(!output.complete);
}

/// Cancels exactly inside a failing write or flush operation.
struct CancellingWriter {
    cancelled: Rc<Cell<bool>>,
    fail_on_flush: bool,
}

impl OutputSink for CancellingWriter {
    fn write_all(&mut self, _bytes: &[u8]) -> Result<(), IoFailure> {
        if self.fail_on_flush {
            return Ok(());
        }
        self.cancelled.set(true);
        Err(other("cancelled tee write"))
    }

    fn flush(&mut self) -> Result<(), IoFailure> {
        self.cancelled.set(true);
        Err(other("cancelled tee flush"))
    }
}

/// An in-memory stream that observes a shared cancellation flag.
struct CancellableBytes {
    bytes: BytesSource,
    cancelled: Rc<Cell<bool>>,
}

impl OutputSource for CancellableBytes {
    fn read_chunk(&mut self, max_len: usize) -> Result<Vec<u8>, IoFailure> {
        Ok(self.bytes.next_chunk(max_len))
    }

    fn is_cancelled(&self) -> bool {
        self.cancelled.get()
    }
}

#[test]
fn test_tee_cancellation_preserves_read_bytes_and_observed_eof() {
    for fail_on_flush in [false, true] {
        let cancelled = Rc::new(Cell::new(false));
        let error = read_output(
            &mut RecordedSource::new(CancellableBytes { bytes: BytesSource::new(b"output"), cancelled: Rc::clone(&cancelled) }),
            OutputCaptureOptions::new(
                Some(4),
                Some(OutputTee::new(
                    CancellingWriter { cancelled: Rc::clone(&cancelled), fail_on_flush },
                    PathBuf::from("cancelled-tee.log"),
                )),
            ),
        )
        .err().must("tee failure must survive simultaneous cancellation");
        let OutputCaptureError::Write { path, source, output } = error else {
            panic!("expected tee write or flush failure");
        };
        assert_eq!(path, Path::new("cancelled-tee.log"));
        assert_eq!(source.message(), if fail_on_flush { "cancelled tee flush" } else { "cancelled tee write" });
        assert_eq!(output.bytes, b"outp", "bytes already read must survive tee cancellation");
        assert!(output.truncated);
        assert_eq!(output.complete, fail_on_flush, "completeness follows pipe EOF, not tee success");
    }
}

#[test]
fn new_accepts_a_writer_and_diagnostic_path() {
    let options = OutputCaptureOptions::new(
        Some(7),
        Some(OutputTee::new(FailingWriter { fail_write: true }, PathBuf::from("stdout.log"))),
    );

    assert_eq!(options.max_bytes, Some(7));
    assert_eq!(options.tee.must("tee should be configured").path, Path::new("stdout.log"));
}

#[test]
fn capture_copies_every_byte_to_the_tee_and_flushes_at_eof() {
    let written = Rc::new(Cell::new(Vec::new()));
    let flushed = Rc::new(Cell::new(false));
    let output = read_output(
        &mut RecordedSource::new(BytesSource::new(b"abcdefgh")),
        OutputCaptureOptions::new(
            Some(3),
            Some(OutputTee::new(
                RecordingWriter { written: Rc::clone(&written), flushed: Rc::clone(&flushed) },
                PathBuf::from("copy.log"),
            )),
        ),
    )
    .must("a clean capture should succeed");

    assert_eq!(output.bytes, b"abc");
    assert!(output.truncated);
    assert!(output.complete);
    assert_eq!(written.take(), b"abcdefgh");
    assert!(flushed.get());
}

#[test]
fn capture_without_limit_keeps_everything() {
    let output = read_output(&mut RecordedSource::new(BytesSource::new(b"everything")), OutputCaptureOptions::new(None, no_tee()))
        .must("a clean capture should succeed");

    assert_eq!(output.bytes, b"everything");
    assert!(!output.truncated);
    assert!(output.complete);
}

#[test]
fn capture_at_exact_limit_is_not_truncated() {
    let output = read_output(&mut RecordedSource::new(BytesSource::new(b"four")), OutputCaptureOptions::new(Some(4), no_tee()))
        .must("a clean capture should succeed");

    assert_eq!(output.bytes, b"four");
    assert!(!output.truncated);
}

#[test]
fn capture_with_zero_limit_retains_nothing() {
    let output = read_output(&mut RecordedSource::new(BytesSource::new(b"data")), OutputCaptureOptions::new(Some(0), no_tee()))
        .must("a clean capture should succeed");

    assert!(output.bytes.is_empty());
    assert!(output.truncated);
    assert!(output.complete);
}

#[test]
fn detached_capture_is_empty_and_incomplete() {
    let output = CapturedOutput::detached();

    assert!(output.bytes.is_empty());
    assert!(!output.truncated);
    assert!(!output.complete);
}

/// A pipe that has "prefix" ready, then reports the wait for more input as
/// cancelled.
struct PipeWokenByCancellation {
    sent: bool,
}

impl OutputSource for PipeWokenByCancellation {
    fn read_chunk(&mut self, _max_len: usize) -> Result<Vec<u8>, IoFailure> {
        self.sent = true;
        Ok(b"prefix".to_vec())
    }

    fn wait_readable(&mut self) -> Result<bool, IoFailure> {
        Ok(!self.sent)
    }
}

struct PipeTee;

impl OutputSink for PipeTee {
    fn write_all(&mut self, _bytes: &[u8]) -> Result<(), IoFailure> {
        Err(other("pipe tee failure"))
    }

    fn flush(&mut self) -> Result<(), IoFailure> {
        Ok(())
    }
}

#[test]
fn test_pending_tee_error_survives_pipe_wakeup_cancellation() {
    let result = read_output(
        &mut RecordedSource::new(PipeWokenByCancellation { sent: false }),
        OutputCaptureOptions::new(Some(4), Some(OutputTee::new(PipeTee, PathBuf::from("pipe-tee.log")))),
    );
    let OutputCaptureError::Write { path, source, output } = result.err().must("pending tee failure must survive") else {
        panic!("expected tee failure after pipe cancellation");
    };
    assert_eq!(path, Path::new("pipe-tee.log"));
    assert_eq!(source.message(), "pipe tee failure");
    assert_eq!(output.bytes, b"pref");
    assert!(output.truncated);
    assert!(!output.complete);
}
