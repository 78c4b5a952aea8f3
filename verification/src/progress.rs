//! Progress reports and cancellation.
use std::sync::atomic::AtomicBool;
use std::sync::atomic::Ordering;
use std::sync::Arc;

use vstd::prelude::*;

verus! {

/// The phase of an operation.
#[derive(Clone, Copy, Debug, PartialEq, Eq, Structural)]
pub enum Phase {
    Listing,
    Compressing,
    Extracting,
}

/// A progress report handed to a [`ProgressSink`].
#[derive(Clone, Debug)]
pub struct ProgressReport {
    pub phase: Phase,
    /// The file being processed, as text.
    pub current_file: String,
    pub done_bytes: u64,
    pub total_bytes: u64,
}

/// Receives progress reports (implemented by the command line and the desktop front ends).
pub trait ProgressSink: Send + Sync {
    fn update(&self, report: &ProgressReport);
}

/// A cancellation flag shared between an operation and the party that may cancel it.
///
/// The flag is an atomic boolean read and written with relaxed ordering; it is only ever set.
/// The flag's value is shared by every clone and may be set from another thread, so no
/// contract here speaks of it.
#[derive(Clone)]
pub struct CancelHandle(Arc<AtomicBool>);

impl CancelHandle {
    /// A handle that is not cancelled.
    pub fn new() -> Self {
        CancelHandle(Arc::new(AtomicBool::new(false)))
    }

    /// Sets the flag; every clone of this handle observes it.
    pub fn cancel(&self) {
        let flag: &AtomicBool = &self.0;
        flag.store(true, Ordering::Relaxed);
    }

    /// Whether the flag has been set (by any clone of this handle, possibly on another thread).
    pub fn is_cancelled(&self) -> bool {
        let flag: &AtomicBool = &self.0;
        flag.load(Ordering::Relaxed)
    }
}

impl Default for CancelHandle {
    fn default() -> Self {
        CancelHandle::new()
    }
}

} // verus!
