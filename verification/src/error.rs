//! Error taxonomy of the capture core.
//!
//! Every failure is recovered at the boundary of the single capture or single
//! server-lifecycle operation that produced it; nothing here is fatal to the
//! process.

use vstd::prelude::*;

verus! {

/// A failure of one capture or one server-lifecycle operation.
#[derive(Debug, Clone, Copy, PartialEq, Eq, Structural)]
pub enum CaptureError {
    /// The window handle is stale or resolves to a zero/default handle.
    InvalidWindow,
    /// The pixel buffer's size does not match the requested dimensions; a
    /// programming-error-class failure, not a transient condition.
    MalformedBuffer,
    /// The native pixel read-back call reported failure; retryable.
    PixelReadError,
    /// Image serialization failed; surfaced as a request failure.
    EncodeError,
    /// The requested port is already in use or unavailable.
    BindError,
}

/// An error carrying the message of a failed image write, as reported by the
/// encoder.
#[derive(Debug)]
pub struct CustomError {
    pub message: String,
}

impl CustomError {
    /// Wraps an image-write failure message.
    #[allow(non_snake_case)]
    pub fn ImageWriteError(message: String) -> (r: Self)
        ensures
            r.message == message,
    {
        CustomError { message }
    }
}

} // verus!
