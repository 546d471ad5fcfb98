//! Checks on the configured stdin and tee files before a command starts:
//! which inspection outcomes are accepted, how failures become errors, and
//! which configured files conflict because they are the same file.
//!
//! The caller inspects the file system and hands the outcomes over as plain
//! values: whether a path or handle is an ordinary file, the components of a
//! normalized path, and the identity of an open file.

use std::path::PathBuf;
use vstd::prelude::*;

use crate::command::bytes_equal;
use crate::paths::normalized_parts;
use crate::paths::parts_view;
use crate::paths::PathPart;
use crate::paths::PathPartView;
use crate::CommandError;
use crate::CommandErrorKind;
use crate::CommandErrorReason;
use crate::CommandStdin;
use crate::CommandOutput;
use crate::IoFailure;
use crate::IoFailureKind;
use crate::OutputStream;

verus! {

/// The identity of an open file: the volume (device) it lives on and its
/// index (inode) on that volume. Two handles name the same file exactly when
/// both parts are equal.
#[derive(Clone, Copy, Debug, PartialEq, Eq, Structural)]
pub struct FileIdentity {
    /// Volume or device number.
    pub volume: u64,
    /// File index or inode number on the volume.
    pub index: u64,
}

/// Which two configured files conflict.
#[derive(Clone, Copy, Debug, PartialEq, Eq, Structural)]
pub enum FileConflict {
    /// Stdin and the stdout tee are the same file.
    InputStdout,
    /// Stdin and the stderr tee are the same file.
    InputStderr,
    /// The stdout and stderr tees are the same file.
    Outputs,
}

/// Whether two optional keys are both present and equal.
pub open spec fn both_equal<K>(left: Option<K>, right: Option<K>) -> bool {
    left.is_some() && right.is_some() && left.unwrap() == right.unwrap()
}

/// The first conflict among stdin, stdout and stderr keys, checked in the
/// order stdin/stdout, stdin/stderr, stdout/stderr.
pub open spec fn first_conflict<K>(stdin: Option<K>, stdout: Option<K>, stderr: Option<K>) -> Option<FileConflict> {
    if both_equal(stdin, stdout) {
        Some(FileConflict::InputStdout)
    } else if both_equal(stdin, stderr) {
        Some(FileConflict::InputStderr)
    } else if both_equal(stdout, stderr) {
        Some(FileConflict::Outputs)
    } else {
        None
    }
}

/// The key of an optional configured file.
pub open spec fn key_of<K>(file: Option<(PathBuf, K)>) -> Option<K> {
    match file {
        Some((_, key)) => Some(key),
        None => None,
    }
}

/// The normalized-components key of an optional configured file.
pub open spec fn parts_key_of(file: Option<(PathBuf, Vec<PathPart>)>) -> Option<Seq<PathPartView>> {
    match file {
        Some((_, parts)) => Some(parts_view(parts@)),
        None => None,
    }
}

/// The error reported for a conflict between configured files.
pub open spec fn conflict_reason(
    conflict: FileConflict,
    stdin_path: PathBuf,
    stdout_path: PathBuf,
    stderr_path: PathBuf,
) -> CommandErrorReason {
    match conflict {
        FileConflict::InputStdout => CommandErrorReason::InputOutputConflict {
            input_path: stdin_path,
            output_stream: OutputStream::Stdout,
            output_path: stdout_path,
        },
        FileConflict::InputStderr => CommandErrorReason::InputOutputConflict {
            input_path: stdin_path,
            output_stream: OutputStream::Stderr,
            output_path: stderr_path,
        },
        FileConflict::Outputs => CommandErrorReason::OutputFilesConflict {
            stdout_path,
            stderr_path,
        },
    }
}

/// The path of an optional configured file, or an arbitrary path when it is
/// absent (never read in that case).
pub open spec fn path_of<K>(file: Option<(PathBuf, K)>) -> PathBuf {
    file.unwrap().0
}

/// The outcome of a conflict check: no conflict, or the error of the first
/// conflict, with neither output nor cleanup failures.
pub open spec fn conflict_outcome<K>(
    command: Seq<char>,
    conflict: Option<FileConflict>,
    stdin: Option<(PathBuf, K)>,
    stdout: Option<(PathBuf, K)>,
    stderr: Option<(PathBuf, K)>,
    result: Result<(), CommandError>,
) -> bool {
    match conflict {
        None => result is Ok,
        Some(which) => match result {
            Ok(_) => false,
            Err(error) => {
                &&& error.spec_command() == command
                &&& error.spec_reason() == conflict_reason(which, path_of(stdin), path_of(stdout), path_of(stderr))
                &&& error.spec_output() == None::<CommandOutput>
                &&& error.spec_cleanup_failures().len() == 0
            },
        },
    }
}

/// Builds the error of a conflict from the configured files involved.
fn conflict_error<K>(
    command: &str,
    conflict: FileConflict,
    stdin: Option<(PathBuf, K)>,
    stdout: Option<(PathBuf, K)>,
    stderr: Option<(PathBuf, K)>,
) -> (error: CommandError)
    requires
        conflict != FileConflict::Outputs ==> stdin.is_some(),
        conflict != FileConflict::InputStderr ==> stdout.is_some(),
        conflict != FileConflict::InputStdout ==> stderr.is_some(),
    ensures
        error.spec_command() == command@,
        error.spec_reason() == conflict_reason(conflict, path_of(stdin), path_of(stdout), path_of(stderr)),
        error.spec_output() == None::<CommandOutput>,
        error.spec_cleanup_failures().len() == 0,
{
    let reason = match conflict {
        FileConflict::InputStdout => {
            let (input_path, _) = stdin.unwrap();
            let (output_path, _) = stdout.unwrap();
            CommandErrorReason::InputOutputConflict { input_path, output_stream: OutputStream::Stdout, output_path }
        },
        FileConflict::InputStderr => {
            let (input_path, _) = stdin.unwrap();
            let (output_path, _) = stderr.unwrap();
            CommandErrorReason::InputOutputConflict { input_path, output_stream: OutputStream::Stderr, output_path }
        },
        FileConflict::Outputs => {
            let (stdout_path, _) = stdout.unwrap();
            let (stderr_path, _) = stderr.unwrap();
            CommandErrorReason::OutputFilesConflict { stdout_path, stderr_path }
        },
    };
    CommandError::from_reason(command, reason, None)
}

/// Whether two component sequences are equal.
pub fn parts_equal(left: &Vec<PathPart>, right: &Vec<PathPart>) -> (equal: bool)
    ensures
        equal == (parts_view(left@) == parts_view(right@)),
{
    if left.len() != right.len() {
        proof {
            assert(parts_view(left@).len() != parts_view(right@).len());
        }
        return false;
    }
    let mut index: usize = 0;
    while index < left.len()
        invariant
            left@.len() == right@.len(),
            index <= left@.len(),
            forall|i: int| 0 <= i < index ==> left@[i]@ == right@[i]@,
        decreases left@.len() - index,
    {
        let same = match (&left[index], &right[index]) {
            (PathPart::Prefix(a), PathPart::Prefix(b)) => bytes_equal(a.as_slice(), b.as_slice()),
            (PathPart::Normal(a), PathPart::Normal(b)) => bytes_equal(a.as_slice(), b.as_slice()),
            (PathPart::RootDir, PathPart::RootDir) => true,
            (PathPart::CurDir, PathPart::CurDir) => true,
            (PathPart::ParentDir, PathPart::ParentDir) => true,
            _ => false,
        };
        if !same {
            proof {
                assert(parts_view(left@)[index as int] == left@[index as int]@);
                assert(parts_view(right@)[index as int] == right@[index as int]@);
            }
            return false;
        }
        index = index + 1;
    }
    proof {
        assert forall|i: int| 0 <= i < parts_view(left@).len() implies parts_view(left@)[i] == parts_view(
            right@,
        )[i] by {
            assert(parts_view(left@)[i] == left@[i]@);
            assert(parts_view(right@)[i] == right@[i]@);
        }
        assert(parts_view(left@) =~= parts_view(right@));
    }
    true
}

/// Whether two optional component sequences are both present and equal.
fn optional_parts_equal(left: &Option<(PathBuf, Vec<PathPart>)>, right: &Option<(PathBuf, Vec<PathPart>)>) -> (equal:
    bool)
    ensures
        equal == both_equal(parts_key_of(*left), parts_key_of(*right)),
{
    match (left, right) {
        (Some((_, a)), Some((_, b))) => parts_equal(a, b),
        _ => false,
    }
}

/// Rejects configured files whose normalized paths are equal.
///
/// Each file is its configured path with the components of its normalized
/// absolute form. The first conflict found, in the order stdin/stdout,
/// stdin/stderr, stdout/stderr, is reported with the configured paths.
pub fn validate_normalized_paths(
    command: &str,
    stdin: Option<(PathBuf, Vec<PathPart>)>,
    stdout: Option<(PathBuf, Vec<PathPart>)>,
    stderr: Option<(PathBuf, Vec<PathPart>)>,
) -> (result: Result<(), CommandError>)
    ensures
        conflict_outcome(
            command@,
            first_conflict(parts_key_of(stdin), parts_key_of(stdout), parts_key_of(stderr)),
            stdin,
            stdout,
            stderr,
            result,
        ),
{
    let input_stdout = optional_parts_equal(&stdin, &stdout);
    let input_stderr = optional_parts_equal(&stdin, &stderr);
    let outputs = optional_parts_equal(&stdout, &stderr);
    if input_stdout {
        Err(conflict_error(command, FileConflict::InputStdout, stdin, stdout, stderr))
    } else if input_stderr {
        Err(conflict_error(command, FileConflict::InputStderr, stdin, stdout, stderr))
    } else if outputs {
        Err(conflict_error(command, FileConflict::Outputs, stdin, stdout, stderr))
    } else {
        Ok(())
    }
}

/// Whether two optional identities are both present and equal.
fn optional_identities_equal(left: &Option<(PathBuf, FileIdentity)>, right: &Option<(PathBuf, FileIdentity)>) -> (equal:
    bool)
    ensures
        equal == both_equal(key_of(*left), key_of(*right)),
{
    match (left, right) {
        (Some((_, a)), Some((_, b))) => a.volume == b.volume && a.index == b.index,
        _ => false,
    }
}

/// Rejects open files that are the same file.
///
/// Each file is its configured path with the identity of its open handle.
/// The first conflict found, in the order stdin/stdout, stdin/stderr,
/// stdout/stderr, is reported with the configured paths.
pub fn validate_file_identities(
    command: &str,
    stdin: Option<(PathBuf, FileIdentity)>,
    stdout: Option<(PathBuf, FileIdentity)>,
    stderr: Option<(PathBuf, FileIdentity)>,
) -> (result: Result<(), CommandError>)
    ensures
        conflict_outcome(
            command@,
            first_conflict(key_of(stdin), key_of(stdout), key_of(stderr)),
            stdin,
            stdout,
            stderr,
            result,
        ),
{
    let input_stdout = optional_identities_equal(&stdin, &stdout);
    let input_stderr = optional_identities_equal(&stdin, &stderr);
    let outputs = optional_identities_equal(&stdout, &stderr);
    if input_stdout {
        Err(conflict_error(command, FileConflict::InputStdout, stdin, stdout, stderr))
    } else if input_stderr {
        Err(conflict_error(command, FileConflict::InputStderr, stdin, stdout, stderr))
    } else if outputs {
        Err(conflict_error(command, FileConflict::Outputs, stdin, stdout, stderr))
    } else {
        Ok(())
    }
}

/// The shape of an error that carries `reason` for `command`, with neither
/// output nor cleanup failures.
pub open spec fn plain_error(result: Result<(), CommandError>, command: Seq<char>, reason: CommandErrorReason) -> bool {
    match result {
        Ok(_) => false,
        Err(error) => {
            &&& error.spec_command() == command
            &&& error.spec_reason() == reason
            &&& error.spec_output() == None::<CommandOutput>
            &&& error.spec_cleanup_failures().len() == 0
        },
    }
}

/// Judges the inspection of the configured stdin file, by path or by open
/// handle: an ordinary file is accepted, another file type is rejected, and
/// an inspection failure is an open failure.
pub fn check_regular_input(command: &str, path: PathBuf, inspection: Result<bool, IoFailure>) -> (result: Result<
    (),
    CommandError,
>)
    ensures
        match inspection {
            Ok(true) => result is Ok,
            Ok(false) => plain_error(result, command@, CommandErrorReason::NonRegularInputFile { path }),
            Err(source) => plain_error(result, command@, CommandErrorReason::OpenInputFailed { path, source }),
        },
{
    match inspection {
        Ok(true) => Ok(()),
        Ok(false) => Err(CommandError::from_reason(command, CommandErrorReason::NonRegularInputFile { path }, None)),
        Err(source) => Err(CommandError::from_reason(command, CommandErrorReason::OpenInputFailed { path, source }, None)),
    }
}

/// Judges the inspection of an opened tee file's handle: an ordinary file is
/// accepted, another file type is rejected, and an inspection failure is an
/// open failure.
pub fn check_regular_output_handle(
    command: &str,
    stream: OutputStream,
    path: PathBuf,
    inspection: Result<bool, IoFailure>,
) -> (result: Result<(), CommandError>)
    ensures
        match inspection {
            Ok(true) => result is Ok,
            Ok(false) => plain_error(result, command@, CommandErrorReason::NonRegularOutputFile { stream, path }),
            Err(source) => plain_error(result, command@, CommandErrorReason::OpenOutputFailed { stream, path, source }),
        },
{
    match inspection {
        Ok(true) => Ok(()),
        Ok(false) => Err(
            CommandError::from_reason(command, CommandErrorReason::NonRegularOutputFile { stream, path }, None),
        ),
        Err(source) => Err(
            CommandError::from_reason(command, CommandErrorReason::OpenOutputFailed { stream, path, source }, None),
        ),
    }
}

/// Judges a configured tee path before it is opened.
///
/// `inspection` is the outcome of inspecting the path following links
/// (whether it is an ordinary file). An existing ordinary file is accepted;
/// another existing file type is rejected. When the path is not found,
/// `link_inspection` (inspecting the path itself, without following a link)
/// decides: a dangling link is rejected, a path that does not exist at all
/// is accepted (the file will be created), and any other failure is an
/// inspection failure. Any other failure of the first inspection is an
/// inspection failure too. `link_inspection` is read only in the not-found
/// case.
pub fn check_output_path(
    command: &str,
    stream: OutputStream,
    path: PathBuf,
    inspection: Result<bool, IoFailure>,
    link_inspection: Result<(), IoFailure>,
) -> (result: Result<(), CommandError>)
    ensures
        match inspection {
            Ok(true) => result is Ok,
            Ok(false) => plain_error(result, command@, CommandErrorReason::NonRegularOutputFile { stream, path }),
            Err(source) => if source.kind == IoFailureKind::NotFound {
                match link_inspection {
                    Ok(()) => plain_error(result, command@, CommandErrorReason::NonRegularOutputFile { stream, path }),
                    Err(link_source) => if link_source.kind == IoFailureKind::NotFound {
                        result is Ok
                    } else {
                        plain_error(
                            result,
                            command@,
                            CommandErrorReason::InspectIoFileFailed { path, source: link_source },
                        )
                    },
                }
            } else {
                plain_error(result, command@, CommandErrorReason::InspectIoFileFailed { path, source })
            },
        },
{
    match inspection {
        Ok(true) => Ok(()),
        Ok(false) => Err(
            CommandError::from_reason(command, CommandErrorReason::NonRegularOutputFile { stream, path }, None),
        ),
        Err(source) => {
            if source.kind() == IoFailureKind::NotFound {
                match link_inspection {
                    Ok(()) => Err(
                        CommandError::from_reason(
                            command,
                            CommandErrorReason::NonRegularOutputFile { stream, path },
                            None,
                        ),
                    ),
                    Err(link_source) => {
                        if link_source.kind() == IoFailureKind::NotFound {
                            Ok(())
                        } else {
                            Err(inspect_error(command, path, link_source))
                        }
                    },
                }
            } else {
                Err(inspect_error(command, path, source))
            }
        },
    }
}

/// The error for a configured path that could not be inspected.
pub fn inspect_error(command: &str, path: PathBuf, source: IoFailure) -> (error: CommandError)
    ensures
        plain_error(Err(error), command@, CommandErrorReason::InspectIoFileFailed { path, source }),
{
    CommandError::from_reason(command, CommandErrorReason::InspectIoFileFailed { path, source }, None)
}

/// Maps a failure to open (or prepare) the configured stdin file to an
/// `OpenInputFailed` error.
pub fn map_open_input<T>(command: &str, path: PathBuf, result: Result<T, IoFailure>) -> (mapped: Result<
    T,
    CommandError,
>)
    ensures
        match result {
            Ok(value) => mapped == Ok::<T, CommandError>(value),
            Err(source) => match mapped {
                Ok(_) => false,
                Err(error) => plain_error(Err(error), command@, CommandErrorReason::OpenInputFailed { path, source }),
            },
        },
{
    match result {
        Ok(value) => Ok(value),
        Err(source) => Err(CommandError::from_reason(command, CommandErrorReason::OpenInputFailed { path, source }, None)),
    }
}

/// Maps a failure to open, prepare or truncate a tee file to an
/// `OpenOutputFailed` error.
pub fn map_open_output<T>(command: &str, stream: OutputStream, path: PathBuf, result: Result<T, IoFailure>) -> (mapped:
    Result<T, CommandError>)
    ensures
        match result {
            Ok(value) => mapped == Ok::<T, CommandError>(value),
            Err(source) => match mapped {
                Ok(_) => false,
                Err(error) => plain_error(
                    Err(error),
                    command@,
                    CommandErrorReason::OpenOutputFailed { stream, path, source },
                ),
            },
        },
{
    match result {
        Ok(value) => Ok(value),
        Err(source) => Err(
            CommandError::from_reason(command, CommandErrorReason::OpenOutputFailed { stream, path, source }, None),
        ),
    }
}

/// Judges an opened tee file just before it is truncated: a handle that
/// cannot be inspected is an inspection failure, and one that is no longer an
/// ordinary file is rejected. Only an ordinary file may be truncated.
pub fn check_truncation_target(
    command: &str,
    stream: OutputStream,
    path: PathBuf,
    inspection: Result<bool, IoFailure>,
) -> (result: Result<(), CommandError>)
    ensures
        match inspection {
            Ok(true) => result is Ok,
            Ok(false) => plain_error(result, command@, CommandErrorReason::NonRegularOutputFile { stream, path }),
            Err(source) => plain_error(result, command@, CommandErrorReason::InspectIoFileFailed { path, source }),
        },
{
    match inspection {
        Ok(true) => Ok(()),
        Ok(false) => Err(
            CommandError::from_reason(command, CommandErrorReason::NonRegularOutputFile { stream, path }, None),
        ),
        Err(source) => Err(inspect_error(command, path, source)),
    }
}

/// Chooses the normalized form of a configured path: its canonical form when
/// the file system resolved one, its lexically normalized absolute form when
/// the path does not exist yet, and an inspection failure otherwise.
pub fn choose_normalized_path(
    command: &str,
    path: PathBuf,
    absolute: Vec<PathPart>,
    canonical: Result<Vec<PathPart>, IoFailure>,
) -> (result: Result<Vec<PathPart>, CommandError>)
    ensures
        match canonical {
            Ok(parts) => match result {
                Ok(chosen) => chosen@ == parts@,
                Err(_) => false,
            },
            Err(source) => if source.kind == IoFailureKind::NotFound {
                match result {
                    Ok(chosen) => parts_view(chosen@) == normalized_parts(parts_view(absolute@)),
                    Err(_) => false,
                }
            } else {
                match result {
                    Ok(_) => false,
                    Err(error) => plain_error(
                        Err(error),
                        command@,
                        CommandErrorReason::InspectIoFileFailed { path, source },
                    ),
                }
            },
        },
{
    match canonical {
        Ok(parts) => Ok(parts),
        Err(source) => {
            if source.kind() == IoFailureKind::NotFound {
                Ok(crate::paths::normalize_lexically(absolute))
            } else {
                Err(inspect_error(command, path, source))
            }
        },
    }
}

/// The file system as the preparation of I/O files sees it.
///
/// Implementations report what the operating system reports; nothing is
/// assumed about the values they return.
pub trait FileSystem {
    /// An open file.
    type File;

    /// Inspects a path, following links: whether it is an ordinary file.
    fn inspect(&mut self, path: &PathBuf) -> Result<bool, IoFailure>;

    /// Inspects a path itself, without following a link.
    fn inspect_link(&mut self, path: &PathBuf) -> Result<(), IoFailure>;

    /// Opens a path for reading, without waiting for a peer.
    fn open_for_reading(&mut self, path: &PathBuf) -> Result<Self::File, IoFailure>;

    /// Opens (creating when missing) a path for writing, without truncating
    /// it and without waiting for a peer.
    fn open_for_writing(&mut self, path: &PathBuf) -> Result<Self::File, IoFailure>;

    /// Inspects an open file: whether it is an ordinary file.
    fn inspect_file(&mut self, file: &Self::File) -> Result<bool, IoFailure>;

    /// Makes later operations on an open file block again.
    fn make_blocking(&mut self, file: &Self::File) -> Result<(), IoFailure>;

    /// The absolute form of a path (relative to the current directory), as
    /// a path and as its components.
    fn absolute(&mut self, path: &PathBuf) -> Result<(PathBuf, Vec<PathPart>), IoFailure>;

    /// The components of the canonical form of an absolute path.
    fn canonical(&mut self, absolute: &PathBuf) -> Result<Vec<PathPart>, IoFailure>;

    /// The identity of an open file.
    fn identity(&mut self, file: &Self::File) -> Result<FileIdentity, IoFailure>;

    /// Truncates an open file to zero length.
    fn truncate(&mut self, file: &Self::File) -> Result<(), IoFailure>;
}

/// Which configured file a call concerns.
#[derive(Clone, Copy, Debug, PartialEq, Eq, Structural)]
pub enum FileRole {
    /// The stdin file.
    Stdin,
    /// The stdout tee.
    Stdout,
    /// The stderr tee.
    Stderr,
}

/// One call made to the file system while preparing I/O files, with its
/// answer (an open file is recorded as success), or the start of a
/// preparation.
pub enum FsCall {
    /// A preparation started; what is recorded before it belongs to earlier
    /// preparations.
    Begin,
    /// `inspect` and its answer.
    Inspect(Result<bool, IoFailure>),
    /// `inspect_link` and its answer.
    InspectLink(Result<(), IoFailure>),
    /// `open_for_reading` and whether it succeeded.
    OpenForReading(Result<(), IoFailure>),
    /// `open_for_writing` and whether it succeeded.
    OpenForWriting(Result<(), IoFailure>),
    /// `inspect_file` before a file is accepted, and its answer.
    InspectFile(Result<bool, IoFailure>),
    /// `make_blocking` and its answer.
    MakeBlocking(Result<(), IoFailure>),
    /// `absolute` for a configured file and the components it gave.
    Absolute(FileRole, Result<Seq<PathPartView>, IoFailure>),
    /// `canonical` for a configured file and the components it gave.
    Canonical(FileRole, Result<Seq<PathPartView>, IoFailure>),
    /// `identity` for a configured file and its answer.
    Identity(FileRole, Result<FileIdentity, IoFailure>),
    /// `inspect_file` on a tee file just before truncating it, and its answer.
    TruncationCheck(Result<bool, IoFailure>),
    /// `truncate` and its answer.
    Truncate(Result<(), IoFailure>),
}

/// The answer of an open as plain values.
pub open spec fn open_answer<F>(result: Result<F, IoFailure>) -> Result<(), IoFailure> {
    match result {
        Ok(_) => Ok(()),
        Err(source) => Err(source),
    }
}

/// The answer of `absolute` as plain values.
pub open spec fn absolute_answer(result: Result<(PathBuf, Vec<PathPart>), IoFailure>) -> Result<
    Seq<PathPartView>,
    IoFailure,
> {
    match result {
        Ok((_, parts)) => Ok(parts_view(parts@)),
        Err(source) => Err(source),
    }
}

/// The answer of `canonical` as plain values.
pub open spec fn canonical_answer(result: Result<Vec<PathPart>, IoFailure>) -> Result<Seq<PathPartView>, IoFailure> {
    match result {
        Ok(parts) => Ok(parts_view(parts@)),
        Err(source) => Err(source),
    }
}

/// A file system together with the record of every call made to it while
/// preparing I/O files, with the answers.
pub struct RecordedFileSystem<S> {
    /// The file system.
    pub fs: S,
    /// The calls made so far, in order.
    pub calls: Ghost<Seq<FsCall>>,
}

impl<S> RecordedFileSystem<S> {
    /// Wraps a file system with an empty record.
    pub fn new(fs: S) -> (recorded: Self)
        ensures
            recorded.fs == fs,
            recorded.calls() == Seq::<FsCall>::empty(),
    {
        RecordedFileSystem { fs, calls: Ghost(Seq::empty()) }
    }

    /// The calls made so far, in order.
    pub open spec fn calls(&self) -> Seq<FsCall> {
        self.calls@
    }
}

impl<S: FileSystem> RecordedFileSystem<S> {
    /// `inspect`, recorded.
    pub fn inspect(&mut self, path: &PathBuf) -> (result: Result<bool, IoFailure>)
        ensures
            final(self).calls() == old(self).calls().push(FsCall::Inspect(result)),
            forall|r: FileRole| #[trigger] normalized_key(final(self).calls(), r) == normalized_key(old(self).calls(), r),
            forall|r: FileRole| #[trigger] identity_key(final(self).calls(), r) == identity_key(old(self).calls(), r),
            forall|start: Seq<FsCall>|
                extended_before_truncation(start, old(self).calls()) ==> #[trigger] extended_before_truncation(
                    start,
                    final(self).calls(),
                ),
    {
        let result = self.fs.inspect(path);
        proof {
            lemma_keys_push(self.calls@, FsCall::Inspect(result));
            lemma_step_keeps_extension(self.calls@, FsCall::Inspect(result));
        }
        self.calls = Ghost(self.calls@.push(FsCall::Inspect(result)));
        result
    }

    /// `inspect_link`, recorded.
    pub fn inspect_link(&mut self, path: &PathBuf) -> (result: Result<(), IoFailure>)
        ensures
            final(self).calls() == old(self).calls().push(FsCall::InspectLink(result)),
            forall|r: FileRole| #[trigger] normalized_key(final(self).calls(), r) == normalized_key(old(self).calls(), r),
            forall|r: FileRole| #[trigger] identity_key(final(self).calls(), r) == identity_key(old(self).calls(), r),
            forall|start: Seq<FsCall>|
                extended_before_truncation(start, old(self).calls()) ==> #[trigger] extended_before_truncation(
                    start,
                    final(self).calls(),
                ),
    {
        let result = self.fs.inspect_link(path);
        proof {
            lemma_keys_push(self.calls@, FsCall::InspectLink(result));
            lemma_step_keeps_extension(self.calls@, FsCall::InspectLink(result));
        }
        self.calls = Ghost(self.calls@.push(FsCall::InspectLink(result)));
        result
    }

    /// `open_for_reading`, recorded.
    pub fn open_for_reading(&mut self, path: &PathBuf) -> (result: Result<S::File, IoFailure>)
        ensures
            final(self).calls() == old(self).calls().push(FsCall::OpenForReading(open_answer(result))),
            forall|r: FileRole| #[trigger] normalized_key(final(self).calls(), r) == normalized_key(old(self).calls(), r),
            forall|r: FileRole| #[trigger] identity_key(final(self).calls(), r) == identity_key(old(self).calls(), r),
            forall|start: Seq<FsCall>|
                extended_before_truncation(start, old(self).calls()) ==> #[trigger] extended_before_truncation(
                    start,
                    final(self).calls(),
                ),
    {
        let result = self.fs.open_for_reading(path);
        proof {
            lemma_keys_push(self.calls@, FsCall::OpenForReading(open_answer(result)));
            lemma_step_keeps_extension(self.calls@, FsCall::OpenForReading(open_answer(result)));
        }
        self.calls = Ghost(self.calls@.push(FsCall::OpenForReading(open_answer(result))));
        result
    }

    /// `open_for_writing`, recorded.
    pub fn open_for_writing(&mut self, path: &PathBuf) -> (result: Result<S::File, IoFailure>)
        ensures
            final(self).calls() == old(self).calls().push(FsCall::OpenForWriting(open_answer(result))),
            forall|r: FileRole| #[trigger] normalized_key(final(self).calls(), r) == normalized_key(old(self).calls(), r),
            forall|r: FileRole| #[trigger] identity_key(final(self).calls(), r) == identity_key(old(self).calls(), r),
            forall|start: Seq<FsCall>|
                extended_before_truncation(start, old(self).calls()) ==> #[trigger] extended_before_truncation(
                    start,
                    final(self).calls(),
                ),
    {
        let result = self.fs.open_for_writing(path);
        proof {
            lemma_keys_push(self.calls@, FsCall::OpenForWriting(open_answer(result)));
            lemma_step_keeps_extension(self.calls@, FsCall::OpenForWriting(open_answer(result)));
        }
        self.calls = Ghost(self.calls@.push(FsCall::OpenForWriting(open_answer(result))));
        result
    }

    /// `inspect_file` while a file is being accepted, recorded.
    pub fn inspect_file(&mut self, file: &S::File) -> (result: Result<bool, IoFailure>)
        ensures
            final(self).calls() == old(self).calls().push(FsCall::InspectFile(result)),
            forall|r: FileRole| #[trigger] normalized_key(final(self).calls(), r) == normalized_key(old(self).calls(), r),
            forall|r: FileRole| #[trigger] identity_key(final(self).calls(), r) == identity_key(old(self).calls(), r),
            forall|start: Seq<FsCall>|
                extended_before_truncation(start, old(self).calls()) ==> #[trigger] extended_before_truncation(
                    start,
                    final(self).calls(),
                ),
    {
        let result = self.fs.inspect_file(file);
        proof {
            lemma_keys_push(self.calls@, FsCall::InspectFile(result));
            lemma_step_keeps_extension(self.calls@, FsCall::InspectFile(result));
        }
        self.calls = Ghost(self.calls@.push(FsCall::InspectFile(result)));
        result
    }

    /// `make_blocking`, recorded.
    pub fn make_blocking(&mut self, file: &S::File) -> (result: Result<(), IoFailure>)
        ensures
            final(self).calls() == old(self).calls().push(FsCall::MakeBlocking(result)),
            forall|r: FileRole| #[trigger] normalized_key(final(self).calls(), r) == normalized_key(old(self).calls(), r),
            forall|r: FileRole| #[trigger] identity_key(final(self).calls(), r) == identity_key(old(self).calls(), r),
            forall|start: Seq<FsCall>|
                extended_before_truncation(start, old(self).calls()) ==> #[trigger] extended_before_truncation(
                    start,
                    final(self).calls(),
                ),
    {
        let result = self.fs.make_blocking(file);
        proof {
            lemma_keys_push(self.calls@, FsCall::MakeBlocking(result));
            lemma_step_keeps_extension(self.calls@, FsCall::MakeBlocking(result));
        }
        self.calls = Ghost(self.calls@.push(FsCall::MakeBlocking(result)));
        result
    }

    /// `absolute`, recorded.
    pub fn absolute(&mut self, role: FileRole, path: &PathBuf) -> (result: Result<(PathBuf, Vec<PathPart>), IoFailure>)
        ensures
            final(self).calls() == old(self).calls().push(FsCall::Absolute(role, absolute_answer(result))),
            forall|r: FileRole| #[trigger] normalized_key(final(self).calls(), r) == normalized_key(old(self).calls(), r),
            forall|r: FileRole| #[trigger] identity_key(final(self).calls(), r) == identity_key(old(self).calls(), r),
            forall|start: Seq<FsCall>|
                extended_before_truncation(start, old(self).calls()) ==> #[trigger] extended_before_truncation(
                    start,
                    final(self).calls(),
                ),
    {
        let result = self.fs.absolute(path);
        proof {
            lemma_keys_push(self.calls@, FsCall::Absolute(role, absolute_answer(result)));
            lemma_step_keeps_extension(self.calls@, FsCall::Absolute(role, absolute_answer(result)));
        }
        self.calls = Ghost(self.calls@.push(FsCall::Absolute(role, absolute_answer(result))));
        result
    }

    /// `canonical`, recorded.
    pub fn canonical(&mut self, role: FileRole, absolute: &PathBuf) -> (result: Result<Vec<PathPart>, IoFailure>)
        ensures
            final(self).calls() == old(self).calls().push(FsCall::Canonical(role, canonical_answer(result))),
            forall|r: FileRole| #[trigger] identity_key(final(self).calls(), r) == identity_key(old(self).calls(), r),
            forall|r: FileRole|
                r != role ==> #[trigger] normalized_key(final(self).calls(), r) == normalized_key(old(self).calls(), r),
            forall|absolute: Seq<PathPartView>|
                old(self).calls().len() >= 1 && old(self).calls().last() == FsCall::Absolute(role, Ok(absolute))
                    ==> #[trigger] chosen_key(absolute, canonical_answer(result)) == normalized_key(
                    final(self).calls(),
                    role,
                ),
            forall|start: Seq<FsCall>|
                extended_before_truncation(start, old(self).calls()) ==> #[trigger] extended_before_truncation(
                    start,
                    final(self).calls(),
                ),
    {
        let result = self.fs.canonical(absolute);
        proof {
            lemma_keys_push(self.calls@, FsCall::Canonical(role, canonical_answer(result)));
            lemma_step_keeps_extension(self.calls@, FsCall::Canonical(role, canonical_answer(result)));
        }
        self.calls = Ghost(self.calls@.push(FsCall::Canonical(role, canonical_answer(result))));
        result
    }

    /// `identity`, recorded.
    pub fn identity(&mut self, role: FileRole, file: &S::File) -> (result: Result<FileIdentity, IoFailure>)
        ensures
            final(self).calls() == old(self).calls().push(FsCall::Identity(role, result)),
            forall|r: FileRole| #[trigger] normalized_key(final(self).calls(), r) == normalized_key(old(self).calls(), r),
            forall|r: FileRole|
                r != role ==> #[trigger] identity_key(final(self).calls(), r) == identity_key(old(self).calls(), r),
            identity_key(final(self).calls(), role) == match result {
                Ok(identity) => Some(identity),
                Err(_) => None::<FileIdentity>,
            },
            forall|start: Seq<FsCall>|
                extended_before_truncation(start, old(self).calls()) ==> #[trigger] extended_before_truncation(
                    start,
                    final(self).calls(),
                ),
    {
        let result = self.fs.identity(file);
        proof {
            lemma_keys_push(self.calls@, FsCall::Identity(role, result));
            lemma_step_keeps_extension(self.calls@, FsCall::Identity(role, result));
        }
        self.calls = Ghost(self.calls@.push(FsCall::Identity(role, result)));
        result
    }

    /// `inspect_file` on a tee file about to be truncated, recorded.
    pub fn check_before_truncation(&mut self, file: &S::File) -> (result: Result<bool, IoFailure>)
        ensures
            final(self).calls() == old(self).calls().push(FsCall::TruncationCheck(result)),
            forall|r: FileRole| #[trigger] normalized_key(final(self).calls(), r) == normalized_key(old(self).calls(), r),
            forall|r: FileRole| #[trigger] identity_key(final(self).calls(), r) == identity_key(old(self).calls(), r),
    {
        let result = self.fs.inspect_file(file);
        proof {
            lemma_keys_push(self.calls@, FsCall::TruncationCheck(result));
        }
        self.calls = Ghost(self.calls@.push(FsCall::TruncationCheck(result)));
        result
    }

    /// `truncate`, recorded.
    pub fn truncate(&mut self, file: &S::File) -> (result: Result<(), IoFailure>)
        ensures
            final(self).calls() == old(self).calls().push(FsCall::Truncate(result)),
            forall|r: FileRole| #[trigger] normalized_key(final(self).calls(), r) == normalized_key(old(self).calls(), r),
            forall|r: FileRole| #[trigger] identity_key(final(self).calls(), r) == identity_key(old(self).calls(), r),
    {
        let result = self.fs.truncate(file);
        proof {
            lemma_keys_push(self.calls@, FsCall::Truncate(result));
        }
        self.calls = Ghost(self.calls@.push(FsCall::Truncate(result)));
        result
    }
}

/// The normalized form chosen from an absolute form and the answer of
/// `canonical`: the canonical form, the lexically normalized absolute form
/// for a path that does not exist yet, or none after another failure.
pub open spec fn chosen_key(absolute: Seq<PathPartView>, canonical: Result<Seq<PathPartView>, IoFailure>) -> Option<
    Seq<PathPartView>,
> {
    match canonical {
        Ok(parts) => Some(parts),
        Err(source) => if source.kind == IoFailureKind::NotFound {
            Some(normalized_parts(absolute))
        } else {
            None
        },
    }
}

/// The normalized form of the file `role` recorded by the current
/// preparation: the form chosen from the last `absolute` and `canonical`
/// pair for it, or none.
pub open spec fn normalized_key(calls: Seq<FsCall>, role: FileRole) -> Option<Seq<PathPartView>>
    decreases calls.len(),
{
    if calls.len() == 0 {
        None
    } else {
        match calls.last() {
            FsCall::Begin => None,
            FsCall::Canonical(r, answer) => if r == role && calls.len() >= 2 {
                match calls[calls.len() - 2] {
                    FsCall::Absolute(r2, Ok(absolute)) => if r2 == role {
                        chosen_key(absolute, answer)
                    } else {
                        normalized_key(calls.drop_last(), role)
                    },
                    _ => normalized_key(calls.drop_last(), role),
                }
            } else {
                normalized_key(calls.drop_last(), role)
            },
            _ => normalized_key(calls.drop_last(), role),
        }
    }
}

/// The identity of the file `role` recorded by the current preparation:
/// the last answer of `identity` for it, or none.
pub open spec fn identity_key(calls: Seq<FsCall>, role: FileRole) -> Option<FileIdentity>
    decreases calls.len(),
{
    if calls.len() == 0 {
        None
    } else {
        match calls.last() {
            FsCall::Begin => None,
            FsCall::Identity(r, answer) => if r == role {
                match answer {
                    Ok(identity) => Some(identity),
                    Err(_) => None,
                }
            } else {
                identity_key(calls.drop_last(), role)
            },
            _ => identity_key(calls.drop_last(), role),
        }
    }
}

/// Recording one call leaves the recorded keys of every file it does not
/// concern unchanged, and sets those of the file it concerns.
proof fn lemma_keys_push(calls: Seq<FsCall>, call: FsCall)
    ensures
        forall|r: FileRole|
            #[trigger] normalized_key(calls.push(call), r) == match call {
                FsCall::Begin => None,
                FsCall::Canonical(role, answer) => if r == role && calls.len() >= 1 {
                    match calls.last() {
                        FsCall::Absolute(r2, Ok(absolute)) => if r2 == role {
                            chosen_key(absolute, answer)
                        } else {
                            normalized_key(calls, r)
                        },
                        _ => normalized_key(calls, r),
                    }
                } else {
                    normalized_key(calls, r)
                },
                _ => normalized_key(calls, r),
            },
        forall|r: FileRole|
            #[trigger] identity_key(calls.push(call), r) == match call {
                FsCall::Begin => None,
                FsCall::Identity(role, answer) => if r == role {
                    match answer {
                        Ok(identity) => Some(identity),
                        Err(_) => None,
                    }
                } else {
                    identity_key(calls, r)
                },
                _ => identity_key(calls, r),
            },
{
    assert(calls.push(call).drop_last() =~= calls);
}

/// Whether a call belongs to truncating a tee file.
pub open spec fn is_truncation_call(call: FsCall) -> bool {
    call is TruncationCheck || call is Truncate
}

/// Whether a truncation call found a reason to stop: the file could not be
/// inspected, is no longer an ordinary file, or could not be truncated.
pub open spec fn truncation_refused(call: FsCall) -> bool {
    match call {
        FsCall::TruncationCheck(Ok(regular)) => !regular,
        FsCall::TruncationCheck(Err(_)) => true,
        FsCall::Truncate(Err(_)) => true,
        _ => false,
    }
}

/// A successful truncation.
pub open spec fn truncated(call: FsCall) -> bool {
    match call {
        FsCall::Truncate(Ok(_)) => true,
        _ => false,
    }
}

/// `after` extends `before` by calls that do not truncate anything.
pub open spec fn extended_before_truncation(before: Seq<FsCall>, after: Seq<FsCall>) -> bool {
    &&& before.len() <= after.len()
    &&& after.subrange(0, before.len() as int) == before
    &&& forall|i: int| before.len() <= i < after.len() ==> !is_truncation_call(#[trigger] after[i])
}

/// Extending by calls that truncate nothing, twice, extends by such calls.
proof fn lemma_extended_before_truncation_trans(a: Seq<FsCall>, b: Seq<FsCall>, c: Seq<FsCall>)
    requires
        extended_before_truncation(a, b),
        extended_before_truncation(b, c),
    ensures
        extended_before_truncation(a, c),
{
    assert(c.subrange(0, a.len() as int) =~= b.subrange(0, a.len() as int));
    assert forall|i: int| a.len() <= i < c.len() implies !is_truncation_call(#[trigger] c[i]) by {
        if i < b.len() {
            assert(c[i] == b[i]);
        }
    }
}

/// Recording one call that truncates nothing extends the record by it.
proof fn lemma_extended_by_push(before: Seq<FsCall>, call: FsCall)
    requires
        !is_truncation_call(call),
    ensures
        extended_before_truncation(before, before.push(call)),
{
    assert(before.push(call).subrange(0, before.len() as int) =~= before);
}

/// Recording one call that truncates nothing keeps every extension of an
/// earlier record an extension.
proof fn lemma_step_keeps_extension(before: Seq<FsCall>, call: FsCall)
    requires
        !is_truncation_call(call),
    ensures
        forall|start: Seq<FsCall>|
            extended_before_truncation(start, before) ==> #[trigger] extended_before_truncation(
                start,
                before.push(call),
            ),
{
    lemma_extended_by_push(before, call);
    assert forall|start: Seq<FsCall>| extended_before_truncation(start, before) implies #[trigger]
        extended_before_truncation(start, before.push(call)) by {
        lemma_extended_before_truncation_trans(start, before, before.push(call));
    }
}

/// Nothing recorded is a trivial extension.
proof fn lemma_extended_by_nothing(before: Seq<FsCall>)
    ensures
        extended_before_truncation(before, before),
{
    assert(before.subrange(0, before.len() as int) =~= before);
}

/// How the child's stdin is provided once the files are prepared.
#[derive(Debug)]
pub enum PreparedStdin<F> {
    /// An empty stdin.
    Null,
    /// The parent's stdin.
    Inherit,
    /// A pipe fed with these bytes.
    Piped(Vec<u8>),
    /// This open file.
    File(F),
}

/// The stdin source and the tee files of a run, validated and ready.
#[derive(Debug)]
pub struct PreparedFiles<F> {
    /// How stdin is provided.
    pub stdin: PreparedStdin<F>,
    /// The stdout tee, truncated.
    pub stdout_file: Option<F>,
    /// The stderr tee, truncated.
    pub stderr_file: Option<F>,
}

/// The categories of failure that preparing I/O files can report.
pub open spec fn is_preparation_failure(kind: CommandErrorKind) -> bool {
    ||| kind == CommandErrorKind::OpenInputFailed
    ||| kind == CommandErrorKind::NonRegularInputFile
    ||| kind == CommandErrorKind::OpenOutputFailed
    ||| kind == CommandErrorKind::NonRegularOutputFile
    ||| kind == CommandErrorKind::InputOutputConflict
    ||| kind == CommandErrorKind::OutputFilesConflict
    ||| kind == CommandErrorKind::InspectIoFileFailed
}

/// The prepared stdin corresponds to the configuration.
pub open spec fn stdin_prepared_as<F>(config: CommandStdin, prepared: PreparedStdin<F>) -> bool {
    match (config, prepared) {
        (CommandStdin::Null, PreparedStdin::Null) => true,
        (CommandStdin::Inherit, PreparedStdin::Inherit) => true,
        (CommandStdin::Bytes(bytes), PreparedStdin::Piped(piped)) => piped@ == bytes@,
        (CommandStdin::File(_), PreparedStdin::File(_)) => true,
        _ => false,
    }
}

/// An error met while opening the configured stdin file `path`: it is not
/// an ordinary file, or opening or inspecting it failed.
pub open spec fn input_file_error(error: CommandError, command: Seq<char>, path: PathBuf) -> bool {
    &&& error.spec_command() == command
    &&& error.spec_output().is_none()
    &&& error.spec_cleanup_failures().len() == 0
    &&& match error.spec_reason() {
        CommandErrorReason::NonRegularInputFile { path: reported } => reported == path,
        CommandErrorReason::OpenInputFailed { path: reported, .. } => reported == path,
        _ => false,
    }
}

/// An error met while opening, inspecting or truncating the tee file `path`
/// of `stream`.
pub open spec fn output_file_error(error: CommandError, command: Seq<char>, stream: OutputStream, path: PathBuf) -> bool {
    &&& error.spec_command() == command
    &&& error.spec_output().is_none()
    &&& error.spec_cleanup_failures().len() == 0
    &&& match error.spec_reason() {
        CommandErrorReason::NonRegularOutputFile { stream: reported_stream, path: reported } => reported_stream
            == stream && reported == path,
        CommandErrorReason::OpenOutputFailed { stream: reported_stream, path: reported, .. } => reported_stream
            == stream && reported == path,
        CommandErrorReason::InspectIoFileFailed { path: reported, .. } => reported == path,
        _ => false,
    }
}

/// Opens and validates the configured stdin file.
///
/// The path is inspected, opened, inspected again through the open handle and
/// made blocking; the first step that fails decides the error, which names
/// the configured path.
fn open_input_file<S: FileSystem>(fs: &mut RecordedFileSystem<S>, command: &str, path: &PathBuf) -> (result: Result<
    S::File,
    CommandError,
>)
    ensures
        forall|r: FileRole| #[trigger] normalized_key(final(fs).calls(), r) == normalized_key(old(fs).calls(), r),
        forall|r: FileRole| #[trigger] identity_key(final(fs).calls(), r) == identity_key(old(fs).calls(), r),
        forall|start: Seq<FsCall>|
            extended_before_truncation(start, old(fs).calls()) ==> #[trigger] extended_before_truncation(
                start,
                final(fs).calls(),
            ),
        match result {
            Ok(_) => true,
            Err(error) => input_file_error(error, command@, *path),
        },
{
    let inspection = fs.inspect(path);
    check_regular_input(command, path.clone(), inspection)?;
    let opened = fs.open_for_reading(path);
    let file = map_open_input(command, path.clone(), opened)?;
    let handle_inspection = fs.inspect_file(&file);
    check_regular_input(command, path.clone(), handle_inspection)?;
    let blocking = fs.make_blocking(&file);
    map_open_input(command, path.clone(), blocking)?;
    Ok(file)
}

/// Opens and validates one tee file without truncating it.
///
/// The path is judged by [`check_output_path`], opened, inspected through the
/// open handle and made blocking; the first step that fails decides the
/// error, which names the stream and the configured path.
fn open_output_file<S: FileSystem>(
    fs: &mut RecordedFileSystem<S>,
    command: &str,
    stream: OutputStream,
    path: &PathBuf,
) -> (result: Result<S::File, CommandError>)
    ensures
        forall|r: FileRole| #[trigger] normalized_key(final(fs).calls(), r) == normalized_key(old(fs).calls(), r),
        forall|r: FileRole| #[trigger] identity_key(final(fs).calls(), r) == identity_key(old(fs).calls(), r),
        forall|start: Seq<FsCall>|
            extended_before_truncation(start, old(fs).calls()) ==> #[trigger] extended_before_truncation(
                start,
                final(fs).calls(),
            ),
        match result {
            Ok(_) => true,
            Err(error) => output_file_error(error, command@, stream, *path),
        },
{
    let inspection = fs.inspect(path);
    let link_inspection = match &inspection {
        Err(failure) => if failure.kind() == IoFailureKind::NotFound {
            fs.inspect_link(path)
        } else {
            Ok(())
        },
        Ok(_) => Ok(()),
    };
    check_output_path(command, stream, path.clone(), inspection, link_inspection)?;
    let opened = fs.open_for_writing(path);
    let file = map_open_output(command, stream, path.clone(), opened)?;
    let handle_inspection = fs.inspect_file(&file);
    check_regular_output_handle(command, stream, path.clone(), handle_inspection)?;
    let blocking = fs.make_blocking(&file);
    map_open_output(command, stream, path.clone(), blocking)?;
    Ok(file)
}

/// The shape of an error met while inspecting a configured path.
pub open spec fn inspection_error(error: CommandError, command: Seq<char>) -> bool {
    &&& error.spec_command() == command
    &&& error.spec_output().is_none()
    &&& error.spec_cleanup_failures().len() == 0
    &&& error.spec_kind() == CommandErrorKind::InspectIoFileFailed
}

/// The configured path with its normalized components.
fn normalized_entry<S: FileSystem>(
    fs: &mut RecordedFileSystem<S>,
    command: &str,
    path: Option<&PathBuf>,
    role: FileRole,
) -> (result: Result<Option<(PathBuf, Vec<PathPart>)>, CommandError>)
    ensures
        forall|start: Seq<FsCall>|
            extended_before_truncation(start, old(fs).calls()) ==> #[trigger] extended_before_truncation(
                start,
                final(fs).calls(),
            ),
        forall|r: FileRole|
            r != role ==> #[trigger] normalized_key(final(fs).calls(), r) == normalized_key(old(fs).calls(), r),
        forall|r: FileRole| #[trigger] identity_key(final(fs).calls(), r) == identity_key(old(fs).calls(), r),
        path.is_none() ==> result == Ok::<Option<(PathBuf, Vec<PathPart>)>, CommandError>(None) && final(fs).calls()
            == old(fs).calls(),
        match result {
            Ok(entry) => {
                &&& entry.is_some() == path.is_some()
                &&& entry.is_some() ==> entry.unwrap().0 == *path.unwrap() && normalized_key(final(fs).calls(), role)
                    == Some(parts_view(entry.unwrap().1@))
            },
            Err(error) => inspection_error(error, command@) && (normalized_key(old(fs).calls(), role) is None
                ==> normalized_key(final(fs).calls(), role) is None),
        },
{
    match path {
        None => Ok(None),
        Some(path) => {
            let absolute = match fs.absolute(role, path) {
                Ok(absolute) => absolute,
                Err(source) => {
                    return Err(inspect_error(command, path.clone(), source));
                },
            };
            let (absolute_path, absolute_parts) = absolute;
            let ghost absolute_view = parts_view(absolute_parts@);
            let canonical = fs.canonical(role, &absolute_path);
            proof {
                assert(normalized_key(fs.calls(), role) == chosen_key(absolute_view, canonical_answer(canonical)));
            }
            let parts = choose_normalized_path(command, path.clone(), absolute_parts, canonical)?;
            Ok(Some((path.clone(), parts)))
        },
    }
}

/// The configured path with the identity of its open file.
fn identity_entry<S: FileSystem>(
    fs: &mut RecordedFileSystem<S>,
    command: &str,
    path: Option<&PathBuf>,
    file: Option<&S::File>,
    role: FileRole,
) -> (result: Result<Option<(PathBuf, FileIdentity)>, CommandError>)
    ensures
        forall|start: Seq<FsCall>|
            extended_before_truncation(start, old(fs).calls()) ==> #[trigger] extended_before_truncation(
                start,
                final(fs).calls(),
            ),
        forall|r: FileRole| #[trigger] normalized_key(final(fs).calls(), r) == normalized_key(old(fs).calls(), r),
        forall|r: FileRole|
            r != role ==> #[trigger] identity_key(final(fs).calls(), r) == identity_key(old(fs).calls(), r),
        path.is_none() || file.is_none() ==> result == Ok::<Option<(PathBuf, FileIdentity)>, CommandError>(None)
            && final(fs).calls() == old(fs).calls(),
        match result {
            Ok(entry) => {
                &&& entry.is_some() == (path.is_some() && file.is_some())
                &&& entry.is_some() ==> entry.unwrap().0 == *path.unwrap() && identity_key(final(fs).calls(), role)
                    == Some(entry.unwrap().1)
            },
            Err(error) => inspection_error(error, command@) && identity_key(final(fs).calls(), role) is None,
        },
{
    match (path, file) {
        (Some(path), Some(file)) => match fs.identity(role, file) {
            Ok(identity) => Ok(Some((path.clone(), identity))),
            Err(source) => Err(inspect_error(command, path.clone(), source)),
        },
        _ => Ok(None),
    }
}

/// Truncates one validated tee file.
///
/// Without a configured tee nothing is done. Otherwise the open handle is
/// judged by [`check_truncation_target`] and then truncated; a failure names
/// the stream and the configured path.
fn truncate_output<S: FileSystem>(
    fs: &mut RecordedFileSystem<S>,
    command: &str,
    stream: OutputStream,
    path: Option<&PathBuf>,
    file: Option<&S::File>,
) -> (result: Result<(), CommandError>)
    ensures
        forall|r: FileRole| #[trigger] normalized_key(final(fs).calls(), r) == normalized_key(old(fs).calls(), r),
        forall|r: FileRole| #[trigger] identity_key(final(fs).calls(), r) == identity_key(old(fs).calls(), r),
        old(fs).calls().len() <= final(fs).calls().len(),
        final(fs).calls().subrange(0, old(fs).calls().len() as int) == old(fs).calls(),
        forall|i: int|
            old(fs).calls().len() <= i < final(fs).calls().len() ==> is_truncation_call(
                #[trigger] final(fs).calls()[i],
            ),
        path.is_none() || file.is_none() ==> result is Ok && final(fs).calls() == old(fs).calls(),
        result is Err ==> final(fs).calls().len() > old(fs).calls().len() && truncation_refused(
            final(fs).calls().last(),
        ),
        (path.is_some() && file.is_some() && result is Ok) ==> final(fs).calls().len() == old(fs).calls().len()
            + 2 && final(fs).calls()[old(fs).calls().len() as int] == FsCall::TruncationCheck(Ok(true))
            && truncated(final(fs).calls().last()),
        match result {
            Ok(_) => true,
            Err(error) => path.is_some() && output_file_error(error, command@, stream, *path.unwrap()),
        },
{
    match (path, file) {
        (Some(path), Some(file)) => {
            let ghost before = fs.calls();
            let inspection = fs.check_before_truncation(file);
            check_truncation_target(command, stream, path.clone(), inspection)?;
            let truncated = fs.truncate(file);
            proof {
                assert(fs.calls().subrange(0, before.len() as int) =~= before);
            }
            map_open_output(command, stream, path.clone(), truncated)
        },
        _ => Ok(()),
    }
}

/// The configured files after every check passed, before any tee file is
/// truncated: the stdin file or bytes, whether stdin is inherited, and the
/// open tee files.
struct CheckedFiles<F> {
    stdin_file: Option<F>,
    stdin_bytes: Option<Vec<u8>>,
    inherits: bool,
    stdout_file: Option<F>,
    stderr_file: Option<F>,
}

/// The error shapes that preparing I/O files can report.
pub open spec fn preparation_error(
    error: CommandError,
    command: Seq<char>,
    stdin: CommandStdin,
    stdout_path: Option<&PathBuf>,
    stderr_path: Option<&PathBuf>,
) -> bool {
    &&& error.spec_command() == command
    &&& error.spec_output().is_none()
    &&& error.spec_cleanup_failures().len() == 0
    &&& is_preparation_failure(error.spec_kind())
    &&& (error.spec_kind() == CommandErrorKind::OpenInputFailed || error.spec_kind()
        == CommandErrorKind::NonRegularInputFile || error.spec_kind() == CommandErrorKind::InputOutputConflict)
        ==> stdin is File
    &&& (error.spec_kind() == CommandErrorKind::OutputFilesConflict) ==> stdout_path.is_some()
        && stderr_path.is_some()
}

/// The key of a file when it is configured, none otherwise.
pub open spec fn configured_key<K>(configured: bool, key: Option<K>) -> Option<K> {
    if configured {
        key
    } else {
        None
    }
}

/// Every configured file has a key.
pub open spec fn all_keyed<K>(stdin: Option<K>, stdout: Option<K>, stderr: Option<K>, stdin_file: bool, stdout_file: bool, stderr_file: bool) -> bool {
    &&& stdin_file ==> stdin is Some
    &&& stdout_file ==> stdout is Some
    &&& stderr_file ==> stderr is Some
}

/// The configured stdin file, when stdin is a file.
pub open spec fn stdin_file_path(stdin: CommandStdin) -> PathBuf {
    match stdin {
        CommandStdin::File(path) => path,
        _ => vstd::pervasive::arbitrary(),
    }
}

/// The configured path of an optional tee.
pub open spec fn tee_file_path(path: Option<&PathBuf>) -> PathBuf {
    *path.unwrap()
}

/// How a preparation treats conflicting files, over the normalized forms and
/// identities recorded for the configured files: a success means every
/// configured file was normalized and identified and no two conflict; when
/// every configured file was normalized (or identified) and two conflict,
/// the preparation fails with the first conflict, in the order stdin/stdout,
/// stdin/stderr, stdout/stderr.
pub open spec fn conflicts_refused<T>(
    calls: Seq<FsCall>,
    stdin: CommandStdin,
    stdout_path: Option<&PathBuf>,
    stderr_path: Option<&PathBuf>,
    result: Result<T, CommandError>,
) -> bool {
    let stdin_file = stdin is File;
    let stdout_file = stdout_path.is_some();
    let stderr_file = stderr_path.is_some();
    let normalized_in = configured_key(stdin_file, normalized_key(calls, FileRole::Stdin));
    let normalized_out = configured_key(stdout_file, normalized_key(calls, FileRole::Stdout));
    let normalized_err = configured_key(stderr_file, normalized_key(calls, FileRole::Stderr));
    let identity_in = configured_key(stdin_file, identity_key(calls, FileRole::Stdin));
    let identity_out = configured_key(stdout_file, identity_key(calls, FileRole::Stdout));
    let identity_err = configured_key(stderr_file, identity_key(calls, FileRole::Stderr));
    let normalized_complete = all_keyed(normalized_in, normalized_out, normalized_err, stdin_file, stdout_file, stderr_file);
    let identities_complete = all_keyed(identity_in, identity_out, identity_err, stdin_file, stdout_file, stderr_file);
    let normalized_conflict = first_conflict(normalized_in, normalized_out, normalized_err);
    let identity_conflict = first_conflict(identity_in, identity_out, identity_err);
    &&& result is Ok ==> normalized_complete && normalized_conflict is None && identities_complete
        && identity_conflict is None
    &&& (normalized_complete && normalized_conflict is Some) ==> result is Err && result->Err_0.spec_reason()
        == conflict_reason(
        normalized_conflict.unwrap(),
        stdin_file_path(stdin),
        tee_file_path(stdout_path),
        tee_file_path(stderr_path),
    )
    &&& (identities_complete && identity_conflict is Some) ==> result is Err && result->Err_0.spec_reason()
        == conflict_reason(
        identity_conflict.unwrap(),
        stdin_file_path(stdin),
        tee_file_path(stdout_path),
        tee_file_path(stderr_path),
    )
}

/// No file of the current preparation has a recorded key yet.
pub open spec fn no_keys(calls: Seq<FsCall>) -> bool {
    forall|r: FileRole| #[trigger] normalized_key(calls, r) is None && identity_key(calls, r) is None
}

/// Opens and checks the configured files without truncating anything.
fn open_and_check<S: FileSystem>(
    fs: &mut RecordedFileSystem<S>,
    command: &str,
    stdin: CommandStdin,
    stdout_path: Option<&PathBuf>,
    stderr_path: Option<&PathBuf>,
) -> (result: Result<CheckedFiles<S::File>, CommandError>)
    requires
        no_keys(old(fs).calls()),
    ensures
        conflicts_refused(final(fs).calls(), stdin, stdout_path, stderr_path, result),
        !(stdin is File) && stdout_path.is_none() && stderr_path.is_none() ==> result is Ok,
        forall|start: Seq<FsCall>|
            extended_before_truncation(start, old(fs).calls()) ==> #[trigger] extended_before_truncation(
                start,
                final(fs).calls(),
            ),
        match result {
            Ok(checked) => {
                &&& checked.stdout_file.is_some() == stdout_path.is_some()
                &&& checked.stderr_file.is_some() == stderr_path.is_some()
                &&& match stdin {
                    CommandStdin::File(_) => checked.stdin_file.is_some(),
                    CommandStdin::Bytes(bytes) => checked.stdin_file.is_none() && checked.stdin_bytes.is_some()
                        && checked.stdin_bytes.unwrap()@ == bytes@,
                    CommandStdin::Inherit => checked.stdin_file.is_none() && checked.stdin_bytes.is_none()
                        && checked.inherits,
                    CommandStdin::Null => checked.stdin_file.is_none() && checked.stdin_bytes.is_none()
                        && !checked.inherits,
                }
            },
            Err(error) => preparation_error(error, command@, stdin, stdout_path, stderr_path),
        },
{
    let inherits = match &stdin {
        CommandStdin::Inherit => true,
        _ => false,
    };
    let (stdin_path, stdin_file, stdin_bytes): (Option<PathBuf>, Option<S::File>, Option<Vec<u8>>) = match stdin {
        CommandStdin::Null => (None, None, None),
        CommandStdin::Inherit => (None, None, None),
        CommandStdin::Bytes(bytes) => (None, None, Some(bytes)),
        CommandStdin::File(path) => {
            let file = open_input_file(fs, command, &path)?;
            (Some(path), Some(file), None)
        },
    };
    let stdin_entry = normalized_entry(fs, command, stdin_path.as_ref(), FileRole::Stdin)?;
    let stdout_entry = normalized_entry(fs, command, stdout_path, FileRole::Stdout)?;
    let stderr_entry = normalized_entry(fs, command, stderr_path, FileRole::Stderr)?;
    validate_normalized_paths(command, stdin_entry, stdout_entry, stderr_entry)?;
    let stdout_file = match stdout_path {
        Some(path) => Some(open_output_file(fs, command, OutputStream::Stdout, path)?),
        None => None,
    };
    let stderr_file = match stderr_path {
        Some(path) => Some(open_output_file(fs, command, OutputStream::Stderr, path)?),
        None => None,
    };
    let stdin_identity = identity_entry(fs, command, stdin_path.as_ref(), stdin_file.as_ref(), FileRole::Stdin)?;
    let stdout_identity = identity_entry(fs, command, stdout_path, stdout_file.as_ref(), FileRole::Stdout)?;
    let stderr_identity = identity_entry(fs, command, stderr_path, stderr_file.as_ref(), FileRole::Stderr)?;
    validate_file_identities(command, stdin_identity, stdout_identity, stderr_identity)?;
    Ok(CheckedFiles { stdin_file, stdin_bytes, inherits, stdout_file, stderr_file })
}

/// How many tee files are configured.
pub open spec fn tee_count(stdout_path: Option<&PathBuf>, stderr_path: Option<&PathBuf>) -> nat {
    (if stdout_path.is_some() {
        1nat
    } else {
        0nat
    }) + (if stderr_path.is_some() {
        1nat
    } else {
        0nat
    })
}

/// What preparing I/O files did, as the recorded calls show it: the calls
/// `added` to the record split at `split` into the opening and checking of
/// every file, which truncates nothing, and the truncation of the tee files.
/// Truncation starts only after every check passed: once it has started,
/// the preparation succeeds or the last call is the truncation step that
/// refused. A conflict or a stdin failure truncates nothing. On success
/// each configured tee was checked once more and truncated, every call of
/// that phase succeeding.
pub open spec fn prepared_in_order(
    added: Seq<FsCall>,
    split: int,
    succeeded: bool,
    error_kind: CommandErrorKind,
    tees: nat,
) -> bool {
    &&& 0 <= split <= added.len()
    &&& forall|i: int| 0 <= i < split ==> !is_truncation_call(#[trigger] added[i])
    &&& forall|i: int| split <= i < added.len() ==> is_truncation_call(#[trigger] added[i])
    &&& split < added.len() ==> succeeded || truncation_refused(added.last())
    &&& (!succeeded && (error_kind == CommandErrorKind::InputOutputConflict || error_kind
        == CommandErrorKind::OutputFilesConflict || error_kind == CommandErrorKind::OpenInputFailed || error_kind
        == CommandErrorKind::NonRegularInputFile)) ==> split == added.len()
    &&& succeeded ==> added.len() == split + 2 * tees && forall|i: int|
        split <= i < added.len() ==> (#[trigger] added[i] == FsCall::TruncationCheck(Ok(true)) || truncated(
            added[i],
        ))
}

/// The kind of a failed preparation, or any kind for a success.
pub open spec fn failure_kind<T>(result: Result<T, CommandError>) -> CommandErrorKind {
    match result {
        Ok(_) => CommandErrorKind::OpenInputFailed,
        Err(error) => error.spec_kind(),
    }
}

/// Opens, validates and truncates the configured stdin and tee files.
///
/// The stdin file must be an ordinary file; a tee path must be an ordinary
/// file or not exist yet (it is then created). Files whose normalized paths
/// are equal, or whose open handles are the same file, conflict; the first
/// conflict in the order stdin/stdout, stdin/stderr, stdout/stderr is
/// reported. Tee files are truncated only after every check passed
/// ([`prepared_in_order`], over the calls recorded).
pub fn prepare_io_files<S: FileSystem>(
    fs: &mut RecordedFileSystem<S>,
    command: &str,
    stdin: CommandStdin,
    stdout_path: Option<&PathBuf>,
    stderr_path: Option<&PathBuf>,
) -> (result: Result<PreparedFiles<S::File>, CommandError>)
    ensures
        match result {
            Ok(prepared) => {
                &&& stdin_prepared_as(stdin, prepared.stdin)
                &&& prepared.stdout_file.is_some() == stdout_path.is_some()
                &&& prepared.stderr_file.is_some() == stderr_path.is_some()
            },
            Err(error) => preparation_error(error, command@, stdin, stdout_path, stderr_path),
        },
        old(fs).calls().len() <= final(fs).calls().len(),
        final(fs).calls().subrange(0, old(fs).calls().len() as int) == old(fs).calls(),
        exists|split: int|
            #[trigger] prepared_in_order(
                final(fs).calls().skip(old(fs).calls().len() as int),
                split,
                result is Ok,
                failure_kind(result),
                tee_count(stdout_path, stderr_path),
            ),
        conflicts_refused(final(fs).calls(), stdin, stdout_path, stderr_path, result),
        !(stdin is File) && stdout_path.is_none() && stderr_path.is_none() ==> result is Ok,
{
    let ghost before = fs.calls();
    fs.calls = Ghost(fs.calls@.push(FsCall::Begin));
    proof {
        lemma_extended_by_nothing(before);
        lemma_extended_by_push(before, FsCall::Begin);
        lemma_keys_push(before, FsCall::Begin);
        assert(no_keys(fs.calls()));
    }
    let checked = open_and_check(fs, command, stdin, stdout_path, stderr_path);
    let ghost after_checks = fs.calls();
    proof {
        assert(extended_before_truncation(before, after_checks));
        let added = after_checks.skip(before.len() as int);
        assert forall|i: int| 0 <= i < added.len() implies !is_truncation_call(#[trigger] added[i]) by {
            assert(added[i] == after_checks[before.len() + i]);
        }
    }
    let checked = match checked {
        Ok(checked) => checked,
        Err(error) => {
            let result = Err(error);
            proof {
                assert(after_checks.subrange(0, before.len() as int) == before);
                let added = after_checks.skip(before.len() as int);
                assert(prepared_in_order(
                    added,
                    added.len() as int,
                    false,
                    failure_kind::<PreparedFiles<S::File>>(result),
                    tee_count(stdout_path, stderr_path),
                ));
            }
            return result;
        },
    };
    let CheckedFiles { stdin_file, stdin_bytes, inherits, stdout_file, stderr_file } = checked;
    let ghost split = (after_checks.len() - before.len()) as int;
    let stdout_truncation = truncate_output(fs, command, OutputStream::Stdout, stdout_path, stdout_file.as_ref());
    let ghost after_stdout = fs.calls();
    proof {
        let added = after_stdout.skip(before.len() as int);
        assert forall|i: int| 0 <= i < split implies !is_truncation_call(#[trigger] added[i]) by {
            assert(added[i] == after_checks[before.len() + i]);
            assert(after_checks.skip(before.len() as int)[i] == after_checks[before.len() + i]);
        }
        assert forall|i: int| split <= i < added.len() implies is_truncation_call(#[trigger] added[i]) by {
            assert(added[i] == after_stdout[before.len() + i]);
        }
        assert(after_stdout.subrange(0, before.len() as int) =~= before);
    }
    match stdout_truncation {
        Ok(()) => {},
        Err(error) => {
            let result = Err(error);
            proof {
                let added = after_stdout.skip(before.len() as int);
                assert(added.last() == after_stdout.last());
                assert(prepared_in_order(
                    added,
                    split,
                    false,
                    failure_kind::<PreparedFiles<S::File>>(result),
                    tee_count(stdout_path, stderr_path),
                ));
            }
            return result;
        },
    }
    let stderr_truncation = truncate_output(fs, command, OutputStream::Stderr, stderr_path, stderr_file.as_ref());
    let ghost after_stderr = fs.calls();
    proof {
        let added = after_stderr.skip(before.len() as int);
        assert forall|i: int| 0 <= i < split implies !is_truncation_call(#[trigger] added[i]) by {
            assert(added[i] == after_checks[before.len() + i]);
            assert(after_checks.skip(before.len() as int)[i] == after_checks[before.len() + i]);
        }
        assert forall|i: int| split <= i < added.len() implies is_truncation_call(#[trigger] added[i]) by {
            assert(added[i] == after_stderr[before.len() + i]);
            if before.len() + i < after_stdout.len() {
                assert(after_stderr[before.len() + i] == after_stdout[before.len() + i]);
            }
        }
        assert(after_stderr.subrange(0, before.len() as int) =~= before);
    }
    match stderr_truncation {
        Ok(()) => {},
        Err(error) => {
            let result = Err(error);
            proof {
                let added = after_stderr.skip(before.len() as int);
                assert(added.last() == after_stderr.last());
                assert(prepared_in_order(
                    added,
                    split,
                    false,
                    failure_kind::<PreparedFiles<S::File>>(result),
                    tee_count(stdout_path, stderr_path),
                ));
            }
            return result;
        },
    }
    let prepared_stdin = match stdin_file {
        Some(file) => PreparedStdin::File(file),
        None => match stdin_bytes {
            Some(bytes) => PreparedStdin::Piped(bytes),
            None => if inherits {
                PreparedStdin::Inherit
            } else {
                PreparedStdin::Null
            },
        },
    };
    let result = Ok(PreparedFiles { stdin: prepared_stdin, stdout_file, stderr_file });
    proof {
        let added = after_stderr.skip(before.len() as int);
        assert forall|i: int| split <= i < added.len() implies (#[trigger] added[i] == FsCall::TruncationCheck(
            Ok(true),
        ) || truncated(added[i])) by {
            assert(added[i] == after_stderr[before.len() + i]);
            if before.len() + i < after_stdout.len() {
                assert(after_stderr[before.len() + i] == after_stdout[before.len() + i]);
            }
        }
        assert(prepared_in_order(
            added,
            split,
            true,
            failure_kind::<PreparedFiles<S::File>>(result),
            tee_count(stdout_path, stderr_path),
        ));
    }
    result
}

} // verus!
