//! The protected side effect of one capture operation.
//!
//! A capture hides the target window and forces it into color-keyed
//! transparency before anything else; the window's original style and
//! visibility are restored before the operation finishes, on every path —
//! success, early failure, failed blit or failed read-back alike.  A
//! capture that returned without restoring would leave the caller's window
//! permanently hidden, so restoration is a protected side effect, not
//! optional cleanup.
//!
//! `CaptureFlow` pins that order: an operation can only finish from a state
//! in which the window was never touched or has been restored, never while
//! it is still hidden.

use vstd::prelude::*;
use crate::error::CaptureError;

verus! {

/// Where one capture operation stands with respect to the target window.
#[derive(Debug, Clone, Copy, PartialEq, Eq, Structural)]
pub enum CapturePhase {
    /// Nothing touched yet.
    Ready,
    /// The window is hidden and overlaid; native work is in progress.
    Hidden,
    /// The window's original style and visibility are back.
    Restored,
    /// The operation has returned its outcome.
    Finished,
}

/// One capture operation's progress against the target window.
#[derive(Debug, Clone, Copy, PartialEq, Eq, Structural)]
pub struct CaptureFlow {
    pub phase: CapturePhase,
    /// Whether this operation ever hid the window.
    pub hid: bool,
    /// Whether this operation restored the window.
    pub restored: bool,
}

impl CaptureFlow {
    /// An operation that hid the window has restored it by the time any
    /// later phase is reached.
    pub open spec fn wf(self) -> bool {
        &&& self.phase == CapturePhase::Ready ==> !self.hid && !self.restored
        &&& self.phase == CapturePhase::Hidden ==> self.hid && !self.restored
        &&& self.phase == CapturePhase::Restored ==> self.hid && self.restored
        &&& self.phase == CapturePhase::Finished ==> (self.hid ==> self.restored)
    }

    /// The window is not left hidden or overlaid behind the caller's back.
    pub open spec fn window_left_intact(self) -> bool {
        self.hid ==> self.restored
    }

    /// A capture operation about to start.
    pub fn begin() -> (r: CaptureFlow)
        ensures
            r.wf(),
            r.phase == CapturePhase::Ready,
            !r.hid,
    {
        CaptureFlow { phase: CapturePhase::Ready, hid: false, restored: false }
    }

    /// The first native step: hide the window and force it transparent,
    /// recording its original extended style.
    pub fn hide_window(&mut self)
        requires
            old(self).wf(),
            old(self).phase == CapturePhase::Ready,
        ensures
            final(self).wf(),
            final(self).phase == CapturePhase::Hidden,
            final(self).hid,
    {
        self.phase = CapturePhase::Hidden;
        self.hid = true;
    }

    /// Restores the original style and shows the window again.  This is the
    /// only step that leads out of `Hidden`: whatever a native call did in
    /// between, failure included, passes through here.
    pub fn restore_window(&mut self)
        requires
            old(self).wf(),
            old(self).phase == CapturePhase::Hidden,
        ensures
            final(self).wf(),
            final(self).phase == CapturePhase::Restored,
            final(self).restored,
            final(self).hid == old(self).hid,
    {
        self.phase = CapturePhase::Restored;
        self.restored = true;
    }

    /// Returns the operation's outcome.  An operation can finish before it
    /// touched the window (an invalid handle) or after restoring it — never
    /// while the window is still hidden.
    pub fn finish(&mut self, outcome: Result<(), CaptureError>) -> (r: Result<(), CaptureError>)
        requires
            old(self).wf(),
            old(self).phase == CapturePhase::Ready || old(self).phase == CapturePhase::Restored,
        ensures
            final(self).wf(),
            final(self).phase == CapturePhase::Finished,
            final(self).window_left_intact(),
            final(self).hid == old(self).hid,
            final(self).restored == old(self).restored,
            r == outcome,
    {
        self.phase = CapturePhase::Finished;
        outcome
    }
}

/// However a capture operation ends, the window is left as it was found:
/// every well-formed finished flow has restored what it hid.
pub proof fn lemma_finished_flow_restores_window(f: CaptureFlow)
    requires
        f.wf(),
        f.phase == CapturePhase::Finished,
    ensures
        f.window_left_intact(),
{
}

} // verus!
