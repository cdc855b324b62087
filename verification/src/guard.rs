//! The single-flight capture guard.
//!
//! Native graphics calls against one device context are not reentrant-safe,
//! so captures against the same window must never overlap.  The guard is a
//! mutual-exclusion flag scoped to one listener instance: a request acquires
//! it before capturing and releases it after; a request that finds it held
//! is rejected with a retryable failure rather than queued.

use vstd::prelude::*;
use crate::error::CaptureError;

verus! {

/// A mutual-exclusion flag ensuring only one capture is in flight at a time.
#[derive(Debug, Clone, Copy, PartialEq, Eq, Structural)]
pub struct CaptureGuard {
    pub busy: bool,
}

impl CaptureGuard {
    /// The guard of a freshly spawned listener: free.
    pub fn new() -> (r: CaptureGuard)
        ensures
            !r.busy,
    {
        CaptureGuard { busy: false }
    }

    /// The guard after one acquisition attempt: held either way.
    pub open spec fn acquire_spec(self) -> CaptureGuard {
        CaptureGuard { busy: true }
    }

    /// Whether an acquisition attempt on this guard succeeds.
    pub open spec fn acquire_ok_spec(self) -> bool {
        !self.busy
    }

    /// Tries to take the guard for one capture.  Succeeds exactly when no
    /// capture is in flight; a failed attempt leaves the holder undisturbed.
    pub fn try_acquire(&mut self) -> (r: bool)
        ensures
            r == old(self).acquire_ok_spec(),
            *final(self) == old(self).acquire_spec(),
            final(self).busy,
    {
        let free = !self.busy;
        self.busy = true;
        free
    }

    /// Takes the guard for one capture, or rejects the request.  A request
    /// that arrives while a capture is in flight is not queued: it is
    /// answered with the retryable pixel-read failure, and the holder is
    /// undisturbed.
    pub fn acquire_or_reject(&mut self) -> (r: Result<(), CaptureError>)
        ensures
            *final(self) == old(self).acquire_spec(),
            r is Ok <==> old(self).acquire_ok_spec(),
            r is Err ==> r->Err_0 == CaptureError::PixelReadError,
    {
        if self.try_acquire() {
            Ok(())
        } else {
            Err(CaptureError::PixelReadError)
        }
    }

    /// Releases the guard once the capture (successful or not) is over.
    pub fn release(&mut self)
        ensures
            !final(self).busy,
    {
        self.busy = false;
    }
}

/// Captures are serialized: of two acquisition attempts with no release in
/// between, at most one succeeds, so two in-flight captures never overlap.
pub proof fn lemma_guard_single_flight(g: CaptureGuard)
    ensures
        !(g.acquire_ok_spec() && g.acquire_spec().acquire_ok_spec()),
{
}

} // verus!
