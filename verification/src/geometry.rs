//! Capture geometry: scaling a window's logical client-area size to the
//! physical pixel dimensions to capture.
//!
//! The scale factor is an exact positive rational, so the physical size is
//! the true mathematical ceiling of `client_len * num / den`.

use vstd::prelude::*;
use vstd::arithmetic::div_mod::{lemma_fundamental_div_mod, lemma_mod_bound};

verus! {

/// A positive rational multiplier applied to a window's logical client-area
/// size to obtain the physical pixel dimensions to capture.
#[derive(Debug, Clone, Copy, PartialEq, Eq, Structural)]
pub struct ScaleFactor {
    pub num: u32,
    pub den: u32,
}

impl ScaleFactor {
    /// A scale factor is positive: numerator and denominator are nonzero.
    pub open spec fn wf(self) -> bool {
        self.num >= 1 && self.den >= 1
    }

    /// Builds a positive scale factor.
    pub fn new(num: u32, den: u32) -> (r: Option<ScaleFactor>)
        ensures
            r is Some <==> (num >= 1 && den >= 1),
            r is Some ==> r->0 == (ScaleFactor { num, den }),
            r is Some ==> r->0.wf(),
    {
        if num >= 1 && den >= 1 {
            Some(ScaleFactor { num, den })
        } else {
            None
        }
    }
}

/// The scaled physical length: `ceil(len * num / den)`, computed as
/// `(len * num + den - 1) / den` over the unbounded integers.
pub open spec fn scaled_len(len: u32, scale: ScaleFactor) -> int {
    (len * scale.num + scale.den - 1) / (scale.den as int)
}

/// `(a + d - 1) / d` is the mathematical ceiling of `a / d`: it is the least
/// integer `q` with `q * d >= a`.
pub proof fn lemma_ceil_div(a: int, d: int)
    requires
        a >= 0,
        d >= 1,
    ensures
        ((a + d - 1) / d) * d >= a,
        ((a + d - 1) / d) * d < a + d,
        (a + d - 1) / d >= 0,
{
    let x: int = a + d - 1;
    let q: int = x / d;
    let r: int = x % d;
    lemma_fundamental_div_mod(x, d);
    lemma_mod_bound(x, d);
    assert(x == d * q + r);
    assert(q * d == d * q) by (nonlinear_arith);
    assert(q * d == x - r);
    assert(q >= 0) by (nonlinear_arith)
        requires
            q * d >= x - (d - 1),
            x >= d - 1,
            d >= 1,
    ;
}

/// The scaled length of a positive client length is positive, and zero stays
/// zero.
pub proof fn lemma_scaled_len_positive(len: u32, scale: ScaleFactor)
    requires
        scale.wf(),
    ensures
        len > 0 ==> scaled_len(len, scale) >= 1,
        len == 0 ==> scaled_len(len, scale) == 0,
        scaled_len(len, scale) >= 0,
{
    let a: int = len * scale.num;
    let d: int = scale.den as int;
    lemma_ceil_div(a, d);
    let q: int = (a + d - 1) / d;
    if len == 0 {
        assert(a == 0) by (nonlinear_arith)
            requires
                a == len * scale.num,
                len == 0,
        ;
        assert(q == 0) by (nonlinear_arith)
            requires
                q * d < 0 + d,
                q >= 0,
                d >= 1,
        ;
    } else {
        assert(a >= 1) by (nonlinear_arith)
            requires
                a == len * scale.num,
                len >= 1,
                scale.num >= 1,
        ;
        assert(q >= 1) by (nonlinear_arith)
            requires
                q * d >= a,
                a >= 1,
                d >= 1,
                q >= 0,
        ;
    }
}

/// The extent of a client rectangle along one axis, from the signed
/// coordinates the native rectangle gives: `high - low`, clamped at zero.
pub fn client_extent(low: i32, high: i32) -> (r: u32)
    ensures
        high > low ==> r == high - low,
        high <= low ==> r == 0,
{
    if high > low {
        let d: i64 = (high as i64) - (low as i64);
        d as u32
    } else {
        0
    }
}

/// Computes the physical capture dimensions `ceil(client * scale)` for both
/// axes, or `None` when a scaled dimension does not fit the native 32-bit
/// coordinate space.
pub fn capture_dims(client_width: u32, client_height: u32, scale: ScaleFactor) -> (r: Option<
    (u32, u32),
>)
    requires
        scale.wf(),
    ensures
        r is Some <==> (scaled_len(client_width, scale) <= u32::MAX && scaled_len(
            client_height,
            scale,
        ) <= u32::MAX),
        r is Some ==> ({
            let (w, h) = r->0;
            w == scaled_len(client_width, scale) && h == scaled_len(client_height, scale)
        }),
{
    let w = scale_one(client_width, scale);
    let h = scale_one(client_height, scale);
    match (w, h) {
        (Some(w), Some(h)) => Some((w, h)),
        _ => None,
    }
}

/// Scales one axis: `ceil(len * num / den)` in exact integer arithmetic.
fn scale_one(len: u32, scale: ScaleFactor) -> (r: Option<u32>)
    requires
        scale.wf(),
    ensures
        r is Some <==> scaled_len(len, scale) <= u32::MAX,
        r is Some ==> r->0 == scaled_len(len, scale),
{
    proof {
        assert(len * scale.num <= 0xffff_ffffu64 * 0xffff_ffffu64) by (nonlinear_arith)
            requires
                len <= 0xffff_ffffu64,
                scale.num <= 0xffff_ffffu64,
        ;
        lemma_ceil_div(len * scale.num, scale.den as int);
    }
    let prod: u64 = (len as u64) * (scale.num as u64);
    let den: u64 = scale.den as u64;
    let q: u64 = (prod + (den - 1)) / den;
    if q <= (u32::MAX as u64) {
        Some(q as u32)
    } else {
        None
    }
}

} // verus!
