//! Cooperative cancellation token.
//!
//! A single shared flag, written from the caller's execution context and
//! read by the copy loop once per chunk.  The flag carries no ordering
//! guarantee beyond eventual visibility within one chunk iteration, so no
//! contract pins the value a read returns; the transfer logic is verified
//! for every answer the flag can give (see `transfer`).

use core::sync::atomic::AtomicBool;
use core::sync::atomic::Ordering;
use vstd::prelude::*;

verus! {

/// The abort flag for one transfer slot.  A new transfer resets it at entry,
/// a cancel request sets it unconditionally, and the copy loop polls it at
/// the top of every iteration.  Only one transfer is assumed in flight at a
/// time; the flag is not queued, so a request outlives at most the transfer
/// it interrupts.
pub struct CancelToken {
    flag: AtomicBool,
}

impl CancelToken {
    /// A fresh token with no abort requested.
    pub fn new() -> Self {
        CancelToken { flag: AtomicBool::new(false) }
    }

    /// Requests that the in-flight transfer abort at its next chunk
    /// boundary.  Idempotent; has no effect if no transfer is in flight,
    /// because the next transfer resets the flag at entry.
    pub fn request(&self) {
        self.flag.store(true, Ordering::Relaxed);
    }

    /// Clears the flag.  Called at the start of every transfer, so a cancel
    /// request aimed at an already-finished transfer cannot leak into a new
    /// one.
    pub fn reset(&self) {
        self.flag.store(false, Ordering::Relaxed);
    }

    /// Polls the flag.  The result reflects a write from another execution
    /// context, so nothing is promised of it; callers must handle either
    /// answer.
    pub fn is_requested(&self) -> bool {
        self.flag.load(Ordering::Relaxed)
    }
}

} // verus!
