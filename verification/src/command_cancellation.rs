//! One-shot cancellation handle shared between a caller and running commands.

use std::sync::atomic::AtomicBool;
use std::sync::atomic::Ordering;
use std::sync::Arc;
use vstd::prelude::*;

verus! {

/// A one-shot cancellation handle for running commands.
///
/// Clones share one flag: calling [`Self::cancel`] on any clone is observed
/// by every other clone. Cancelling before a run starts makes the run fail
/// with `CancelledBeforeStart` without spawning; cancelling afterwards makes
/// the run terminate its process tree and fail with `Cancelled`. The handle
/// cannot be reset.
///
/// The flag is shared mutable state that other threads may set at any time,
/// so no contract here states what a later read returns.
#[derive(Clone, Debug)]
pub struct CommandCancellation {
    cancelled: Arc<AtomicBool>,
}

impl CommandCancellation {
    /// Creates a handle that has not been cancelled.
    pub fn new() -> (cancellation: Self) {
        CommandCancellation { cancelled: Arc::new(AtomicBool::new(false)) }
    }

    /// Requests cancellation of every run configured with a clone of this
    /// handle. Repeated calls have no further effect.
    pub fn cancel(&self) {
        self.cancelled.store(true, Ordering::Release);
    }

    /// Reports whether cancellation has been requested on any clone.
    pub fn is_cancelled(&self) -> (cancelled: bool) {
        self.cancelled.load(Ordering::Acquire)
    }
}

} // verus!
