//! The result of one window capture: an RGBA pixel buffer tagged with its
//! physical dimensions, and the conversion from a raw BGRA read-back buffer.

use vstd::prelude::*;
use crate::error::CaptureError;
use crate::geometry::{scaled_len, ScaleFactor};
use crate::pixel::{bgra_to_rgba, channel_swapped};
use vstd::arithmetic::div_mod::{lemma_fundamental_div_mod, lemma_mod_bound};

verus! {

/// An RGBA pixel buffer tagged with width and height.
#[derive(Debug)]
pub struct CaptureResult {
    pub width: u32,
    pub height: u32,
    pub buffer: Vec<u8>,
}

impl CaptureResult {
    /// The buffer holds exactly `width * height` 4-byte RGBA pixels.
    pub open spec fn wf(self) -> bool {
        self.buffer@.len() == 4 * self.width * self.height
    }
}

/// Checks a window handle before use: a zero/default handle is stale and
/// is rejected as `InvalidWindow`.  Validity is the caller's
/// responsibility and is re-checked before each capture, since a handle
/// can become invalid between calls.
pub fn validate_window(handle: isize) -> (r: Result<(), CaptureError>)
    ensures
        r is Ok <==> handle != 0,
        r is Err ==> r->Err_0 == CaptureError::InvalidWindow,
{
    if handle != 0 {
        Ok(())
    } else {
        Err(CaptureError::InvalidWindow)
    }
}

/// Converts a raw top-down BGRA read-back buffer into an RGBA capture result.
///
/// The buffer must hold exactly `width * height` 4-byte pixels; any other
/// length is an internal contract violation and fails with
/// `MalformedBuffer`.  A zero-sized capture yields an empty, well-formed
/// result.  Pure and deterministic.
pub fn convert(width: u32, height: u32, buffer: Vec<u8>) -> (r: Result<
    CaptureResult,
    CaptureError,
>)
    ensures
        r is Ok <==> buffer@.len() == 4 * width * height,
        r is Err ==> r->Err_0 == CaptureError::MalformedBuffer,
        r is Ok ==> ({
            let img = r->Ok_0;
            img.wf() && img.width == width && img.height == height && img.buffer@
                == channel_swapped(buffer@)
        }),
{
    proof {
        assert((width as int) * (height as int) <= 0xffff_ffffi64 * 0xffff_ffffi64)
            by (nonlinear_arith)
            requires
                width <= 0xffff_ffffi64,
                height <= 0xffff_ffffi64,
        ;
    }
    let pixels: u64 = (width as u64) * (height as u64);
    let len: u64 = buffer.len() as u64;
    proof {
        lemma_fundamental_div_mod(len as int, 4);
        lemma_mod_bound(len as int, 4);
        assert(pixels == (width as int) * (height as int));
        assert(4 * (width as int) * (height as int) == 4 * ((width as int) * (height as int)))
            by (nonlinear_arith);
    }
    if len % 4 != 0 || len / 4 != pixels {
        return Err(CaptureError::MalformedBuffer);
    }
    let converted = bgra_to_rgba(buffer);
    Ok(CaptureResult { width, height, buffer: converted })
}

/// The length law of a well-formed capture: when a capture's dimensions are
/// the scaled client dimensions, its buffer length is exactly
/// `4 * ceil(client_width * scale) * ceil(client_height * scale)`.
pub proof fn lemma_capture_buffer_length(
    client_width: u32,
    client_height: u32,
    scale: ScaleFactor,
    img: CaptureResult,
)
    requires
        scale.wf(),
        img.wf(),
        img.width == scaled_len(client_width, scale),
        img.height == scaled_len(client_height, scale),
    ensures
        img.buffer@.len() == 4 * scaled_len(client_width, scale) * scaled_len(
            client_height,
            scale,
        ),
{
}

} // verus!
