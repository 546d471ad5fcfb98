//! Per-run options: cancellation and tee destinations.

use std::path::PathBuf;
use vstd::prelude::*;

use crate::CommandCancellation;

verus! {

/// Per-run options for a command runner: settings that must not be shared
/// across concurrent runs, such as cancellation and tee destinations.
#[derive(Clone)]
pub struct CommandRunOptions {
    cancellation: Option<CommandCancellation>,
    stdout_file: Option<PathBuf>,
    stderr_file: Option<PathBuf>,
}

/// The options of one run, split into owned parts.
pub struct CommandRunOptionsParts {
    /// Cancellation handle, if configured.
    pub cancellation: Option<CommandCancellation>,
    /// Stdout tee path, if configured.
    pub stdout_file: Option<PathBuf>,
    /// Stderr tee path, if configured.
    pub stderr_file: Option<PathBuf>,
}

impl Default for CommandRunOptions {
    /// Options with no cancellation and no tee files.
    fn default() -> (options: Self)
        ensures
            options.spec_cancellation().is_none(),
            options.spec_stdout_file().is_none(),
            options.spec_stderr_file().is_none(),
    {
        CommandRunOptions { cancellation: None, stdout_file: None, stderr_file: None }
    }
}

impl CommandRunOptions {
    /// The configured cancellation handle.
    pub closed spec fn spec_cancellation(&self) -> Option<CommandCancellation> {
        self.cancellation
    }

    /// The configured stdout tee path.
    pub closed spec fn spec_stdout_file(&self) -> Option<PathBuf> {
        self.stdout_file
    }

    /// The configured stderr tee path.
    pub closed spec fn spec_stderr_file(&self) -> Option<PathBuf> {
        self.stderr_file
    }

    /// Creates options with no cancellation and no tee files.
    pub fn new() -> (options: Self)
        ensures
            options.spec_cancellation().is_none(),
            options.spec_stdout_file().is_none(),
            options.spec_stderr_file().is_none(),
    {
        CommandRunOptions { cancellation: None, stdout_file: None, stderr_file: None }
    }

    /// Configures a cancellation handle for this run. Clones of one handle
    /// share a single cancellation request.
    pub fn cancellation(self, cancellation: CommandCancellation) -> (options: Self)
        ensures
            options.spec_cancellation() == Some(cancellation),
            options.spec_stdout_file() == self.spec_stdout_file(),
            options.spec_stderr_file() == self.spec_stderr_file(),
    {
        CommandRunOptions { cancellation: Some(cancellation), ..self }
    }

    /// Streams stdout to a file while still capturing it in memory. The file
    /// is truncated for each run and validated before spawning.
    pub fn tee_stdout_to_file(self, path: PathBuf) -> (options: Self)
        ensures
            options.spec_cancellation() == self.spec_cancellation(),
            options.spec_stdout_file() == Some(path),
            options.spec_stderr_file() == self.spec_stderr_file(),
    {
        CommandRunOptions { stdout_file: Some(path), ..self }
    }

    /// Streams stderr to a file while still capturing it in memory. The file
    /// is truncated for each run and validated before spawning.
    pub fn tee_stderr_to_file(self, path: PathBuf) -> (options: Self)
        ensures
            options.spec_cancellation() == self.spec_cancellation(),
            options.spec_stdout_file() == self.spec_stdout_file(),
            options.spec_stderr_file() == Some(path),
    {
        CommandRunOptions { stderr_file: Some(path), ..self }
    }

    /// Returns the configured cancellation handle, if any.
    pub fn configured_cancellation(&self) -> (cancellation: Option<&CommandCancellation>)
        ensures
            cancellation.is_some() == self.spec_cancellation().is_some(),
            cancellation.is_some() ==> *cancellation.unwrap() == self.spec_cancellation().unwrap(),
    {
        match &self.cancellation {
            Some(cancellation) => Some(cancellation),
            None => None,
        }
    }

    /// Returns the configured stdout tee path, if any.
    pub fn configured_stdout_file(&self) -> (path: Option<&PathBuf>)
        ensures
            path.is_some() == self.spec_stdout_file().is_some(),
            path.is_some() ==> *path.unwrap() == self.spec_stdout_file().unwrap(),
    {
        match &self.stdout_file {
            Some(path) => Some(path),
            None => None,
        }
    }

    /// Returns the configured stderr tee path, if any.
    pub fn configured_stderr_file(&self) -> (path: Option<&PathBuf>)
        ensures
            path.is_some() == self.spec_stderr_file().is_some(),
            path.is_some() ==> *path.unwrap() == self.spec_stderr_file().unwrap(),
    {
        match &self.stderr_file {
            Some(path) => Some(path),
            None => None,
        }
    }

    /// Splits the options into the owned parts consumed by one run.
    pub fn into_parts(self) -> (parts: CommandRunOptionsParts)
        ensures
            parts.cancellation == self.spec_cancellation(),
            parts.stdout_file == self.spec_stdout_file(),
            parts.stderr_file == self.spec_stderr_file(),
    {
        CommandRunOptionsParts {
            cancellation: self.cancellation,
            stdout_file: self.stdout_file,
            stderr_file: self.stderr_file,
        }
    }
}

} // verus!
