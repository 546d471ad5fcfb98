//! Capturing one output stream of a child process: bounded accumulation of
//! the bytes read, an optional tee that receives every byte, and the
//! outcome of the capture with the bytes retained whatever happened.

use std::path::PathBuf;
use vstd::prelude::*;

use crate::IoFailure;
use crate::IoFailureKind;

verus! {

/// Bytes captured from one stream: the retained bytes, whether bytes beyond
/// the capture limit were dropped, and whether end of file was observed.
#[derive(Debug)]
pub struct CapturedOutput {
    /// Retained bytes.
    pub bytes: Vec<u8>,
    /// Whether bytes beyond the capture limit were dropped.
    pub truncated: bool,
    /// Whether the stream was read through end of file.
    pub complete: bool,
}

impl Default for CapturedOutput {
    /// An empty, untruncated capture that observed end of file.
    fn default() -> (output: Self)
        ensures
            output.bytes@ == Seq::<u8>::empty(),
            !output.truncated,
            output.complete,
    {
        CapturedOutput { bytes: Vec::new(), truncated: false, complete: true }
    }
}

impl CapturedOutput {
    /// An empty capture of a stream whose reader never reported back.
    pub fn detached() -> (output: Self)
        ensures
            output.bytes@ == Seq::<u8>::empty(),
            !output.truncated,
            !output.complete,
    {
        CapturedOutput { bytes: Vec::new(), truncated: false, complete: false }
    }
}

/// Failure of one stream capture, with the output captured before and
/// after it.
#[derive(Debug)]
pub enum OutputCaptureError {
    /// Reading the stream failed.
    Read {
        /// Read error.
        source: IoFailure,
        /// Output captured before the failure.
        output: CapturedOutput,
    },
    /// Writing or flushing the tee failed.
    Write {
        /// Configured tee path.
        path: PathBuf,
        /// Write error.
        source: IoFailure,
        /// Output captured, including bytes read after the tee failed.
        output: CapturedOutput,
    },
    /// The tee failed, and reading the stream failed later.
    ReadAfterWrite {
        /// Configured tee path.
        path: PathBuf,
        /// Tee write error.
        write_source: IoFailure,
        /// Later read error.
        read_source: IoFailure,
        /// Output captured before the read failure.
        output: CapturedOutput,
    },
}

/// One failure of a stream capture, detached from its output.
#[derive(Debug)]
pub enum OutputCaptureFailure {
    /// Reading the stream failed.
    Read {
        /// Read error.
        source: IoFailure,
    },
    /// Writing the tee failed.
    Write {
        /// Configured tee path.
        path: PathBuf,
        /// Write error.
        source: IoFailure,
    },
}

/// A source of output bytes, such as a child's stdout pipe.
///
/// Implementations report what the operating system reports; nothing is
/// assumed about the values they return.
pub trait OutputSource {
    /// Reads at most `max_len` bytes; an empty chunk means end of file.
    fn read_chunk(&mut self, max_len: usize) -> Result<Vec<u8>, IoFailure>;

    /// Whether the capture has been asked to stop. A source that cannot be
    /// cancelled keeps the default, which never is.
    fn is_cancelled(&self) -> (cancelled: bool)
        default_ensures
            !cancelled,
    {
        false
    }

    /// Waits until bytes may be read; `false` means the wait was cancelled.
    /// A source that is always ready keeps the default, which returns at once
    /// with `true`.
    fn wait_readable(&mut self) -> (ready: Result<bool, IoFailure>)
        default_ensures
            ready == Ok::<bool, IoFailure>(true),
    {
        Ok(true)
    }
}

/// A destination that receives a copy of every captured byte.
///
/// Implementations report what the operating system reports; nothing is
/// assumed about the values they return.
pub trait OutputSink {
    /// Writes all of `bytes`.
    fn write_all(&mut self, bytes: &[u8]) -> Result<(), IoFailure>;

    /// Flushes buffered bytes.
    fn flush(&mut self) -> Result<(), IoFailure>;
}

/// A tee: a sink and the path reported when it fails.
pub struct OutputTee<W> {
    /// Destination receiving copies of the stream.
    pub writer: W,
    /// Path reported in diagnostics.
    pub path: PathBuf,
}

impl<W> OutputTee<W> {
    /// Creates a tee from a writer and its diagnostic path.
    pub fn new(writer: W, path: PathBuf) -> (tee: Self)
        ensures
            tee.writer == writer,
            tee.path == path,
    {
        OutputTee { writer, path }
    }

    /// Creates a tee when both parts are configured, or none when neither
    /// is; the two parts must be configured together.
    pub fn from_parts(writer: Option<W>, path: Option<PathBuf>) -> (tee: Option<Self>)
        requires
            writer.is_some() == path.is_some(),
        ensures
            tee.is_some() == writer.is_some(),
            tee.is_some() ==> tee.unwrap().writer == writer.unwrap() && tee.unwrap().path
                == path.unwrap(),
    {
        match (writer, path) {
            (Some(writer), Some(path)) => Some(OutputTee::new(writer, path)),
            _ => None,
        }
    }
}

/// Capture settings for one stream: the retention limit and the tee.
pub struct OutputCaptureOptions<W> {
    /// Maximum number of bytes retained, or `None` for no limit.
    pub max_bytes: Option<usize>,
    /// Tee receiving every byte read.
    pub tee: Option<OutputTee<W>>,
}

impl<W> OutputCaptureOptions<W> {
    /// Creates capture settings.
    pub fn new(max_bytes: Option<usize>, tee: Option<OutputTee<W>>) -> (options: Self)
        ensures
            options.max_bytes == max_bytes,
            options.tee == tee,
    {
        OutputCaptureOptions { max_bytes, tee }
    }
}

/// The bytes retained from `data` under the limit `max_bytes`: all of them
/// without a limit, otherwise the first `max_bytes` of them.
pub open spec fn retained_prefix(data: Seq<u8>, max_bytes: Option<usize>) -> Seq<u8> {
    match max_bytes {
        Some(max) => if data.len() <= max {
            data
        } else {
            data.take(max as int)
        },
        None => data,
    }
}

/// Whether retaining `data` under `max_bytes` drops bytes.
pub open spec fn exceeds_limit(data: Seq<u8>, max_bytes: Option<usize>) -> bool {
    match max_bytes {
        Some(max) => data.len() > max,
        None => false,
    }
}

/// Bounded accumulation of the bytes read from one stream.
pub struct CaptureBuffer {
    bytes: Vec<u8>,
    truncated: bool,
    max_bytes: Option<usize>,
}

impl CaptureBuffer {
    /// The bytes retained so far.
    pub closed spec fn spec_bytes(&self) -> Seq<u8> {
        self.bytes@
    }

    /// Whether bytes were dropped so far.
    pub closed spec fn spec_truncated(&self) -> bool {
        self.truncated
    }

    /// The retention limit.
    pub closed spec fn spec_max_bytes(&self) -> Option<usize> {
        self.max_bytes
    }

    /// The buffer holds exactly what retaining `data` gives.
    pub open spec fn holds(&self, data: Seq<u8>) -> bool {
        &&& self.spec_bytes() == retained_prefix(data, self.spec_max_bytes())
        &&& self.spec_truncated() == exceeds_limit(data, self.spec_max_bytes())
    }

    /// An empty buffer with the given limit.
    pub fn new(max_bytes: Option<usize>) -> (buffer: Self)
        ensures
            buffer.spec_max_bytes() == max_bytes,
            buffer.holds(Seq::<u8>::empty()),
    {
        CaptureBuffer { bytes: Vec::new(), truncated: false, max_bytes }
    }

    /// Retains the part of `chunk` that fits under the limit and records
    /// whether any of it was dropped.
    ///
    /// Accepting chunks one by one retains exactly what accepting their
    /// concatenation at once would.
    pub fn accept(&mut self, chunk: &[u8])
        ensures
            final(self).spec_max_bytes() == old(self).spec_max_bytes(),
            final(self).spec_bytes() == match old(self).spec_max_bytes() {
                Some(max) => if old(self).spec_bytes().len() >= max {
                    old(self).spec_bytes()
                } else if old(self).spec_bytes().len() + chunk@.len() <= max {
                    old(self).spec_bytes() + chunk@
                } else {
                    old(self).spec_bytes() + chunk@.take(max - old(self).spec_bytes().len())
                },
                None => old(self).spec_bytes() + chunk@,
            },
            final(self).spec_truncated() == (old(self).spec_truncated() || match old(
                self,
            ).spec_max_bytes() {
                Some(max) => if old(self).spec_bytes().len() >= max {
                    chunk@.len() > 0
                } else {
                    old(self).spec_bytes().len() + chunk@.len() > max
                },
                None => false,
            }),
            forall|data: Seq<u8>| #[trigger] old(self).holds(data) ==> final(self).holds(data + chunk@),
    {
        let keep: usize = match self.max_bytes {
            Some(max) => {
                let remaining: usize = if self.bytes.len() >= max { 0 } else { max - self.bytes.len() };
                if chunk.len() > remaining {
                    self.truncated = true;
                    remaining
                } else {
                    chunk.len()
                }
            },
            None => chunk.len(),
        };
        let ghost start = self.bytes@;
        let mut index: usize = 0;
        while index < keep
            invariant
                keep <= chunk@.len(),
                index <= keep,
                self.bytes@ == start + chunk@.take(index as int),
                self.max_bytes == old(self).max_bytes,
                self.truncated == (old(self).truncated || match old(self).max_bytes {
                    Some(max) => if start.len() >= max {
                        chunk@.len() > 0
                    } else {
                        start.len() + chunk@.len() > max
                    },
                    None => false,
                }),
                start == old(self).bytes@,
                keep == match old(self).max_bytes {
                    Some(max) => if start.len() >= max {
                        0
                    } else if start.len() + chunk@.len() <= max {
                        chunk@.len()
                    } else {
                        (max - start.len()) as nat
                    },
                    None => chunk@.len(),
                },
            decreases keep - index,
        {
            self.bytes.push(chunk[index]);
            proof {
                assert(chunk@.take(index + 1) =~= chunk@.take(index as int).push(chunk@[index as int]));
            }
            index = index + 1;
        }
        proof {
            assert(chunk@.take(chunk@.len() as int) =~= chunk@);
            assert(start + chunk@.take(0) =~= start);
            assert(self.bytes@ == start + chunk@.take(keep as int));
            assert forall|data: Seq<u8>| #[trigger] old(self).holds(data) implies self.holds(data + chunk@) by {
                lemma_retained_prefix_append(data, chunk@, old(self).max_bytes);
            }
        }
    }

    /// Consumes the buffer into a capture with the given completion flag.
    pub fn into_captured(self, complete: bool) -> (output: CapturedOutput)
        ensures
            output.bytes@ == self.spec_bytes(),
            output.truncated == self.spec_truncated(),
            output.complete == complete,
    {
        CapturedOutput { bytes: self.bytes, truncated: self.truncated, complete }
    }
}

/// Retaining `data + chunk` extends what retaining `data` gave by the part
/// of `chunk` that still fits under the limit.
pub proof fn lemma_retained_prefix_append(data: Seq<u8>, chunk: Seq<u8>, max_bytes: Option<usize>)
    ensures
        retained_prefix(data + chunk, max_bytes) == match max_bytes {
            Some(max) => if retained_prefix(data, max_bytes).len() >= max {
                retained_prefix(data, max_bytes)
            } else if retained_prefix(data, max_bytes).len() + chunk.len() <= max {
                retained_prefix(data, max_bytes) + chunk
            } else {
                retained_prefix(data, max_bytes) + chunk.take(
                    max - retained_prefix(data, max_bytes).len(),
                )
            },
            None => retained_prefix(data, max_bytes) + chunk,
        },
        exceeds_limit(data + chunk, max_bytes) == (exceeds_limit(data, max_bytes) || match max_bytes {
            Some(max) => retained_prefix(data, max_bytes).len() + chunk.len() > max,
            None => false,
        }),
{
    match max_bytes {
        Some(max) => {
            if data.len() <= max {
                if data.len() + chunk.len() <= max {
                } else {
                    assert((data + chunk).take(max as int) =~= data + chunk.take(max - data.len()));
                }
            } else {
                assert((data + chunk).take(max as int) =~= data.take(max as int));
            }
        },
        None => {},
    }
}

/// Law: what is retained is a prefix of the data read, never longer than
/// the limit, and all of it unless the data exceeds the limit.
pub proof fn lemma_retained_prefix_is_bounded_prefix(data: Seq<u8>, max_bytes: Option<usize>)
    ensures
        retained_prefix(data, max_bytes) == data.take(retained_prefix(data, max_bytes).len() as int),
        max_bytes.is_some() ==> retained_prefix(data, max_bytes).len() <= max_bytes.unwrap(),
        !exceeds_limit(data, max_bytes) <==> retained_prefix(data, max_bytes) == data,
{
    assert(data.take(data.len() as int) =~= data);
    if exceeds_limit(data, max_bytes) {
        assert(retained_prefix(data, max_bytes).len() < data.len());
    }
}

/// Size of each read request.
pub const READ_CHUNK_BYTES: usize = 8192;

/// The outcome of a capture from what was retained, whether the reader ended
/// at end of file (`Ok(true)`), stopped on cancellation (`Ok(false)`) or
/// failed, and the first tee failure, if any.
pub open spec fn capture_outcome_is(
    result: Result<CapturedOutput, OutputCaptureError>,
    bytes: Seq<u8>,
    truncated: bool,
    read_result: Result<bool, IoFailure>,
    write_failure: Option<(PathBuf, IoFailure)>,
) -> bool {
    let complete = read_result == Ok::<bool, IoFailure>(true);
    let output_ok = |output: CapturedOutput|
        output.bytes@ == bytes && output.truncated == truncated && output.complete == complete;
    match (write_failure, read_result) {
        (Some((path, write_source)), Err(read_source)) => match result {
            Err(OutputCaptureError::ReadAfterWrite { path: p, write_source: w, read_source: r, output }) =>
                p == path && w == write_source && r == read_source && output_ok(output),
            _ => false,
        },
        (Some((path, source)), Ok(_)) => match result {
            Err(OutputCaptureError::Write { path: p, source: s, output }) => p == path && s == source
                && output_ok(output),
            _ => false,
        },
        (None, Err(source)) => match result {
            Err(OutputCaptureError::Read { source: s, output }) => s == source && output_ok(output),
            _ => false,
        },
        (None, Ok(_)) => match result {
            Ok(output) => output_ok(output),
            _ => false,
        },
    }
}

/// Builds the outcome of a capture: a tee failure takes precedence over a
/// later read failure, both are kept when both happened, and the retained
/// bytes survive every failure. The stream is complete only when end of
/// file was observed.
pub fn finish_capture(
    buffer: CaptureBuffer,
    read_result: Result<bool, IoFailure>,
    write_failure: Option<(PathBuf, IoFailure)>,
) -> (result: Result<CapturedOutput, OutputCaptureError>)
    ensures
        capture_outcome_is(
            result,
            buffer.spec_bytes(),
            buffer.spec_truncated(),
            read_result,
            write_failure,
        ),
{
    let complete = match &read_result {
        Ok(true) => true,
        _ => false,
    };
    let output = buffer.into_captured(complete);
    match (write_failure, read_result) {
        (Some((path, write_source)), Err(read_source)) => Err(
            OutputCaptureError::ReadAfterWrite { path, write_source, read_source, output },
        ),
        (Some((path, source)), Ok(_)) => Err(OutputCaptureError::Write { path, source, output }),
        (None, Err(source)) => Err(OutputCaptureError::Read { source, output }),
        (None, Ok(_)) => Ok(output),
    }
}

} // verus!

verus! {

/// The output carried by any capture outcome.
pub open spec fn captured_of(result: Result<CapturedOutput, OutputCaptureError>) -> CapturedOutput {
    match result {
        Ok(output) => output,
        Err(OutputCaptureError::Read { output, .. }) => output,
        Err(OutputCaptureError::Write { output, .. }) => output,
        Err(OutputCaptureError::ReadAfterWrite { output, .. }) => output,
    }
}

/// The tee path an outcome reports, if it reports a tee failure.
pub open spec fn reported_tee_path(result: Result<CapturedOutput, OutputCaptureError>) -> Option<PathBuf> {
    match result {
        Err(OutputCaptureError::Write { path, .. }) => Some(path),
        Err(OutputCaptureError::ReadAfterWrite { path, .. }) => Some(path),
        _ => None,
    }
}

/// One call made during a capture, with its answer.
pub enum CaptureCall {
    /// The source's `is_cancelled` and its answer.
    Cancelled(bool),
    /// The source's `wait_readable` and its answer.
    WaitReadable(Result<bool, IoFailure>),
    /// The source's `read_chunk` and the chunk read, or the failure.
    Read(Result<Seq<u8>, IoFailure>),
    /// The tee's `write_all`, the bytes handed to it, and its answer.
    TeeWrite(Seq<u8>, Result<(), IoFailure>),
    /// The tee's `flush` and its answer.
    TeeFlush(Result<(), IoFailure>),
}

/// The answer of a read as plain values.
pub open spec fn read_answer(result: Result<Vec<u8>, IoFailure>) -> Result<Seq<u8>, IoFailure> {
    match result {
        Ok(chunk) => Ok(chunk@),
        Err(source) => Err(source),
    }
}

/// A source of output together with the record of every call a capture
/// made to it and to its tee, with the answers.
pub struct RecordedSource<R> {
    /// The source.
    pub source: R,
    /// The calls made so far, in order.
    pub calls: Ghost<Seq<CaptureCall>>,
}

impl<R> RecordedSource<R> {
    /// Wraps a source with an empty record.
    pub fn new(source: R) -> (recorded: Self)
        ensures
            recorded.source == source,
            recorded.calls() == Seq::<CaptureCall>::empty(),
    {
        RecordedSource { source, calls: Ghost(Seq::empty()) }
    }

    /// The calls made so far, in order.
    pub open spec fn calls(&self) -> Seq<CaptureCall> {
        self.calls@
    }

    /// Returns the source.
    pub fn into_source(self) -> (source: R)
        ensures
            source == self.source,
    {
        self.source
    }
}

impl<R: OutputSource> RecordedSource<R> {
    /// Asks the source whether the capture was cancelled, recording the call.
    pub fn is_cancelled(&mut self) -> (cancelled: bool)
        ensures
            final(self).calls() == old(self).calls().push(CaptureCall::Cancelled(cancelled)),
    {
        let cancelled = self.source.is_cancelled();
        self.calls = Ghost(self.calls@.push(CaptureCall::Cancelled(cancelled)));
        cancelled
    }

    /// Waits until the source is readable, recording the call.
    pub fn wait_readable(&mut self) -> (ready: Result<bool, IoFailure>)
        ensures
            final(self).calls() == old(self).calls().push(CaptureCall::WaitReadable(ready)),
    {
        let ready = self.source.wait_readable();
        self.calls = Ghost(self.calls@.push(CaptureCall::WaitReadable(ready)));
        ready
    }

    /// Reads a chunk, recording the call.
    pub fn read_chunk(&mut self, max_len: usize) -> (result: Result<Vec<u8>, IoFailure>)
        ensures
            final(self).calls() == old(self).calls().push(CaptureCall::Read(read_answer(result))),
    {
        let result = self.source.read_chunk(max_len);
        self.calls = Ghost(self.calls@.push(CaptureCall::Read(read_answer(result))));
        result
    }

    /// Hands `bytes` to the tee, recording the call.
    pub fn write_tee<W: OutputSink>(&mut self, writer: &mut W, bytes: &[u8]) -> (result: Result<(), IoFailure>)
        ensures
            final(self).calls() == old(self).calls().push(CaptureCall::TeeWrite(bytes@, result)),
    {
        let result = writer.write_all(bytes);
        self.calls = Ghost(self.calls@.push(CaptureCall::TeeWrite(bytes@, result)));
        result
    }

    /// Flushes the tee, recording the call.
    pub fn flush_tee<W: OutputSink>(&mut self, writer: &mut W) -> (result: Result<(), IoFailure>)
        ensures
            final(self).calls() == old(self).calls().push(CaptureCall::TeeFlush(result)),
    {
        let result = writer.flush();
        self.calls = Ghost(self.calls@.push(CaptureCall::TeeFlush(result)));
        result
    }
}

/// The bytes a call read from the source.
pub open spec fn chunk_of(call: CaptureCall) -> Seq<u8> {
    match call {
        CaptureCall::Read(Ok(chunk)) => chunk,
        _ => Seq::empty(),
    }
}

/// Whether a call went to the tee.
pub open spec fn is_tee_call(call: CaptureCall) -> bool {
    call is TeeWrite || call is TeeFlush
}

/// Every byte read, in order.
pub open spec fn chunks_read(calls: Seq<CaptureCall>) -> Seq<u8>
    decreases calls.len(),
{
    if calls.len() == 0 {
        Seq::empty()
    } else {
        chunks_read(calls.drop_last()) + chunk_of(calls.last())
    }
}

/// Every byte handed to the tee, in order.
pub open spec fn tee_written(calls: Seq<CaptureCall>) -> Seq<u8>
    decreases calls.len(),
{
    if calls.len() == 0 {
        Seq::empty()
    } else {
        tee_written(calls.drop_last()) + match calls.last() {
            CaptureCall::TeeWrite(bytes, _) => bytes,
            _ => Seq::empty(),
        }
    }
}

/// The first failure of the tee, if any.
pub open spec fn tee_failure(calls: Seq<CaptureCall>) -> Option<IoFailure>
    decreases calls.len(),
{
    if calls.len() == 0 {
        None
    } else {
        match tee_failure(calls.drop_last()) {
            Some(source) => Some(source),
            None => match calls.last() {
                CaptureCall::TeeWrite(_, Err(source)) => Some(source),
                CaptureCall::TeeFlush(Err(source)) => Some(source),
                _ => None,
            },
        }
    }
}

/// The bytes read before the tee first failed: the bytes the tee is owed.
pub open spec fn read_until_tee_failure(calls: Seq<CaptureCall>) -> Seq<u8>
    decreases calls.len(),
{
    if calls.len() == 0 {
        Seq::empty()
    } else {
        read_until_tee_failure(calls.drop_last()) + if tee_failure(calls.drop_last()) is None {
            chunk_of(calls.last())
        } else {
            Seq::empty()
        }
    }
}

/// No call went to the tee after it first failed.
pub open spec fn tee_quiet_after_failure(calls: Seq<CaptureCall>) -> bool
    decreases calls.len(),
{
    if calls.len() == 0 {
        true
    } else {
        tee_quiet_after_failure(calls.drop_last()) && !(tee_failure(calls.drop_last()) is Some && is_tee_call(
            calls.last(),
        ))
    }
}

/// How many times the tee was flushed.
pub open spec fn flush_count(calls: Seq<CaptureCall>) -> nat
    decreases calls.len(),
{
    if calls.len() == 0 {
        0
    } else {
        flush_count(calls.drop_last()) + if calls.last() is TeeFlush {
            1nat
        } else {
            0nat
        }
    }
}

/// A read failure that is retried rather than ending the capture.
pub open spec fn retried_failure(source: IoFailure) -> bool {
    source.kind == IoFailureKind::Interrupted || source.kind == IoFailureKind::WouldBlock
}

/// How the reading ended, as the calls show it: at end of file
/// (`Ok(true)`), on cancellation (`Ok(false)`) or on a failure; `None` while
/// the calls show no end.
///
/// End of file is an empty chunk; cancellation is a cancelled answer or a
/// cancelled wait; a failed wait ends reading; a failed read ends it when
/// it is not retried and the capture was not cancelled meanwhile. A tee
/// flush after the end does not change it.
pub open spec fn read_outcome(calls: Seq<CaptureCall>) -> Option<Result<bool, IoFailure>>
    decreases calls.len(),
{
    if calls.len() == 0 {
        None
    } else {
        match calls.last() {
            CaptureCall::Read(Ok(chunk)) => if chunk.len() == 0 {
                Some(Ok(true))
            } else {
                None
            },
            CaptureCall::Cancelled(true) => Some(Ok(false)),
            CaptureCall::Cancelled(false) => if calls.len() >= 2 {
                match calls[calls.len() - 2] {
                    CaptureCall::Read(Err(source)) => if retried_failure(source) {
                        None
                    } else {
                        Some(Err(source))
                    },
                    _ => None,
                }
            } else {
                None
            },
            CaptureCall::WaitReadable(Ok(false)) => Some(Ok(false)),
            CaptureCall::WaitReadable(Err(source)) => Some(Err(source)),
            CaptureCall::TeeFlush(_) => read_outcome(calls.drop_last()),
            _ => None,
        }
    }
}

/// The tee failure reported with the configured tee path.
pub open spec fn reported_write_failure(calls: Seq<CaptureCall>, tee_path: Option<PathBuf>) -> Option<
    (PathBuf, IoFailure),
> {
    match (tee_failure(calls), tee_path) {
        (Some(source), Some(path)) => Some((path, source)),
        _ => None,
    }
}

/// What a capture did, as its calls show, and the outcome it reported.
///
/// Cancellation is checked before every read, and a reported cancellation
/// ends the capture at once; reading ends without a recorded end only once
/// the poll limit is spent.
///
/// The retained bytes are the limit's prefix of every byte read, and
/// truncation means bytes beyond the limit were read. The outcome follows
/// how reading ended and the tee's first failure; when reading ended
/// without a recorded end it is a read failure. The tee is handed every
/// chunk read until it first fails, in order, and nothing after that; it is
/// flushed at most once, as the last call, after end of file, and always
/// after end of file unless it had already failed. Without a tee no tee call
/// is made.
pub open spec fn captured_as(
    calls: Seq<CaptureCall>,
    max_bytes: Option<usize>,
    tee_path: Option<PathBuf>,
    result: Result<CapturedOutput, OutputCaptureError>,
) -> bool {
    let data = chunks_read(calls);
    let write_failure = reported_write_failure(calls, tee_path);
    &&& match read_outcome(calls) {
        Some(outcome) => capture_outcome_is(
            result,
            retained_prefix(data, max_bytes),
            exceeds_limit(data, max_bytes),
            outcome,
            write_failure,
        ),
        None => calls.len() >= u64::MAX && exists|source: IoFailure|
            #[trigger] capture_outcome_is(
                result,
                retained_prefix(data, max_bytes),
                exceeds_limit(data, max_bytes),
                Err(source),
                write_failure,
            ),
    }
    &&& reads_follow_checks(calls)
    &&& stops_at_cancellation(calls)
    &&& tee_path.is_none() ==> tee_written(calls).len() == 0 && flush_count(calls) == 0 && tee_failure(calls) is None
    &&& tee_path.is_some() ==> tee_written(calls) == read_until_tee_failure(calls)
    &&& tee_quiet_after_failure(calls)
    &&& flush_count(calls) <= 1
    &&& flush_count(calls) == 1 ==> calls.last() is TeeFlush && read_outcome(calls) == Some(
        Ok::<bool, IoFailure>(true),
    )
    &&& (tee_path.is_some() && read_outcome(calls) == Some(Ok::<bool, IoFailure>(true)) && flush_count(calls)
        == 0) ==> tee_failure(calls) is Some
}

/// Every read comes right after a wait that found the source readable,
/// which comes right after a check that found the capture not cancelled.
pub open spec fn reads_follow_checks(calls: Seq<CaptureCall>) -> bool {
    forall|i: int|
        0 <= i < calls.len() && #[trigger] calls[i] is Read ==> 2 <= i && calls[i - 1] == CaptureCall::WaitReadable(
            Ok(true),
        ) && calls[i - 2] == CaptureCall::Cancelled(false)
}

/// A reported cancellation is the last call: nothing is read, written or
/// flushed after it.
pub open spec fn stops_at_cancellation(calls: Seq<CaptureCall>) -> bool {
    forall|i: int| 0 <= i < calls.len() && #[trigger] calls[i] == CaptureCall::Cancelled(true) ==> i == calls.len() - 1
}

/// The configured tee path.
pub open spec fn tee_path_of<W>(tee: Option<OutputTee<W>>) -> Option<PathBuf> {
    match tee {
        Some(tee) => Some(tee.path),
        None => None,
    }
}

/// Extending a record by one call unfolds every summary of it by one step.
proof fn lemma_record_push(base: Seq<CaptureCall>, calls: Seq<CaptureCall>, call: CaptureCall)
    ensures
        (base + calls).push(call) == base + calls.push(call),
        calls.push(call).drop_last() == calls,
        calls.push(call).last() == call,
        calls.len() >= 1 ==> calls.push(call)[calls.push(call).len() - 2] == calls.last(),
        chunks_read(calls.push(call)) == chunks_read(calls) + chunk_of(call),
        !(call is Read) ==> chunks_read(calls.push(call)) == chunks_read(calls),
        !(call is TeeWrite) ==> tee_written(calls.push(call)) == tee_written(calls),
        read_until_tee_failure(calls.push(call)) == read_until_tee_failure(calls) + if tee_failure(calls) is None {
            chunk_of(call)
        } else {
            Seq::empty()
        },
        !(call is Read) ==> read_until_tee_failure(calls.push(call)) == read_until_tee_failure(calls),
        tee_quiet_after_failure(calls.push(call)) == (tee_quiet_after_failure(calls) && !(tee_failure(calls) is Some
            && is_tee_call(call))),
        flush_count(calls.push(call)) == flush_count(calls) + if call is TeeFlush {
            1nat
        } else {
            0nat
        },
        tee_failure(calls.push(call)) == match tee_failure(calls) {
            Some(source) => Some(source),
            None => match call {
                CaptureCall::TeeWrite(_, Err(source)) => Some(source),
                CaptureCall::TeeFlush(Err(source)) => Some(source),
                _ => None,
            },
        },
{
    assert(calls.push(call).drop_last() =~= calls);
    assert((base + calls).push(call) =~= base + calls.push(call));
    assert(chunks_read(calls) + Seq::<u8>::empty() =~= chunks_read(calls));
    assert(tee_written(calls) + Seq::<u8>::empty() =~= tee_written(calls));
    assert(read_until_tee_failure(calls) + Seq::<u8>::empty() =~= read_until_tee_failure(calls));
}

/// Reads a stream until end of file, cancellation or failure, retaining at
/// most `max_bytes` of it and copying every byte read to the tee.
///
/// Bytes are retained before they are written to the tee, so a tee failure
/// never loses bytes already read; after a tee failure reading continues
/// without the tee. Interrupted reads are retried, would-block reads are
/// retried unless the capture was cancelled, and a read failure observed
/// after cancellation counts as cancellation. On end of file the tee is
/// flushed. The outcome keeps the retained bytes in every case; what the
/// capture did is stated by [`captured_as`] over the calls it recorded.
pub fn read_output<R: OutputSource, W: OutputSink>(
    reader: &mut RecordedSource<R>,
    options: OutputCaptureOptions<W>,
) -> (result: Result<CapturedOutput, OutputCaptureError>)
    ensures
        exists|calls: Seq<CaptureCall>|
            final(reader).calls() == old(reader).calls() + calls && #[trigger] captured_as(
                calls,
                options.max_bytes,
                tee_path_of(options.tee),
                result,
            ),
        reported_tee_path(result).is_some() ==> options.tee.is_some() && reported_tee_path(
            result,
        ).unwrap() == options.tee.unwrap().path,
{
    let ghost tee_path = tee_path_of(options.tee);
    let ghost base = reader.calls();
    let ghost mut log: Seq<CaptureCall> = Seq::empty();
    let OutputCaptureOptions { max_bytes, tee } = options;
    let mut tee = tee;
    let mut buffer = CaptureBuffer::new(max_bytes);
    let mut write_failure: Option<(PathBuf, IoFailure)> = None;
    let mut read_result: Result<bool, IoFailure> = Ok(false);
    let mut done = false;
    let mut polls: u64 = 0;
    proof {
        assert(base + log =~= base);
    }
    while !done && polls < u64::MAX
        invariant
            base == old(reader).calls(),
            reader.calls() == base + log,
            tee_path == tee_path_of(options.tee),
            buffer.spec_max_bytes() == max_bytes,
            buffer.holds(chunks_read(log)),
            max_bytes == options.max_bytes,
            tee.is_some() == (tee_path.is_some() && tee_failure(log) is None),
            tee.is_some() ==> tee.unwrap().path == tee_path.unwrap(),
            write_failure == reported_write_failure(log, tee_path),
            tee_path.is_none() ==> tee_written(log).len() == 0 && tee_failure(log) is None,
            tee_path.is_some() ==> tee_written(log) == read_until_tee_failure(log),
            tee_quiet_after_failure(log),
            flush_count(log) == 0,
            !done ==> read_outcome(log) is None,
            done ==> read_outcome(log) == Some(read_result),
            log.len() >= polls,
            reads_follow_checks(log),
            forall|i: int|
                0 <= i < log.len() && #[trigger] log[i] == CaptureCall::Cancelled(true) ==> i == log.len() - 1
                    && done && read_result == Ok::<bool, IoFailure>(false),
        decreases u64::MAX - polls,
    {
        polls = polls + 1;
        let cancelled = reader.is_cancelled();
        proof {
            lemma_record_push(base, log, CaptureCall::Cancelled(cancelled));
            log = log.push(CaptureCall::Cancelled(cancelled));
        }
        if cancelled {
            read_result = Ok(false);
            done = true;
        } else {
            let ready = reader.wait_readable();
            proof {
                lemma_record_push(base, log, CaptureCall::WaitReadable(ready));
                log = log.push(CaptureCall::WaitReadable(ready));
            }
            match ready {
                Ok(true) => {
                    let read = reader.read_chunk(READ_CHUNK_BYTES);
                    proof {
                        lemma_record_push(base, log, CaptureCall::Read(read_answer(read)));
                        log = log.push(CaptureCall::Read(read_answer(read)));
                    }
                    match read {
                        Ok(chunk) => {
                            if chunk.len() == 0 {
                                read_result = Ok(true);
                                done = true;
                            } else {
                                buffer.accept(chunk.as_slice());
                                tee = match tee {
                                    Some(mut current) => {
                                        let written = reader.write_tee(&mut current.writer, chunk.as_slice());
                                        proof {
                                            lemma_record_push(base, log, CaptureCall::TeeWrite(chunk@, written));
                                            log = log.push(CaptureCall::TeeWrite(chunk@, written));
                                        }
                                        match written {
                                            Ok(()) => Some(current),
                                            Err(source) => {
                                                write_failure = Some((current.path, source));
                                                None
                                            },
                                        }
                                    },
                                    None => None,
                                };
                            }
                        },
                        Err(source) => {
                            let kind = source.kind();
                            if kind == IoFailureKind::Interrupted {
                            } else {
                                let cancelled_now = reader.is_cancelled();
                                proof {
                                    lemma_record_push(base, log, CaptureCall::Cancelled(cancelled_now));
                                    log = log.push(CaptureCall::Cancelled(cancelled_now));
                                }
                                if cancelled_now {
                                    read_result = Ok(false);
                                    done = true;
                                } else if kind == IoFailureKind::WouldBlock {
                                } else {
                                    read_result = Err(source);
                                    done = true;
                                }
                            }
                        },
                    }
                },
                Ok(false) => {
                    read_result = Ok(false);
                    done = true;
                },
                Err(source) => {
                    read_result = Err(source);
                    done = true;
                },
            }
        }
    }
    if !done {
        read_result = Err(IoFailure::other("output capture did not reach end of file"));
    }
    let complete = match &read_result {
        Ok(true) => true,
        _ => false,
    };
    let ghost before_flush = log;
    if complete {
        tee = match tee {
            Some(mut current) => {
                let flushed = reader.flush_tee(&mut current.writer);
                proof {
                    lemma_record_push(base, log, CaptureCall::TeeFlush(flushed));
                    log = log.push(CaptureCall::TeeFlush(flushed));
                }
                match flushed {
                    Ok(()) => Some(current),
                    Err(source) => {
                        write_failure = Some((current.path, source));
                        None
                    },
                }
            },
            None => None,
        };
    }
    let result = finish_capture(buffer, read_result, write_failure);
    proof {
        assert(reader.calls() == old(reader).calls() + log);
        assert(captured_as(log, options.max_bytes, tee_path_of(options.tee), result));
    }
    result
}

} // verus!
