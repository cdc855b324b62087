//! Pure pixel-format conversion: BGRA byte buffers to RGBA.
//!
//! A raw capture buffer holds rows of 4-byte BGRA pixels.  Converting to RGBA
//! swaps the first and third byte of every complete 4-byte group; green and
//! alpha are untouched, and so is any trailing partial group.

use vstd::prelude::*;

verus! {

/// The BGRA-to-RGBA transform on a byte sequence: within every complete
/// 4-byte group, bytes 0 and 2 trade places; every other byte stays.
pub open spec fn channel_swapped(s: Seq<u8>) -> Seq<u8> {
    Seq::new(
        s.len(),
        |i: int|
            if i % 4 == 0 && i + 4 <= s.len() {
                s[i + 2]
            } else if i % 4 == 2 && i + 2 <= s.len() {
                s[i - 2]
            } else {
                s[i]
            },
    )
}

/// Swapping channels twice gives back the original buffer: the transform is
/// an involution.
pub proof fn lemma_channel_swap_involutive(s: Seq<u8>)
    ensures
        channel_swapped(channel_swapped(s)) == s,
{
    assert(channel_swapped(channel_swapped(s)) =~= s);
}

/// Converts a raw BGRA buffer to RGBA in place: the first and third byte of
/// every complete 4-byte pixel group are swapped, everything else is kept.
pub fn bgra_to_rgba(buffer: Vec<u8>) -> (r: Vec<u8>)
    ensures
        r@ == channel_swapped(buffer@),
{
    let ghost orig: Seq<u8> = buffer@;
    let mut out = buffer;
    let n: usize = out.len();
    let mut i: usize = 0;
    while n - i >= 4
        invariant
            n == out.len() == orig.len(),
            i % 4 == 0,
            i <= n,
            forall|j: int| 0 <= j < i ==> out[j] == channel_swapped(orig)[j],
            forall|j: int| i <= j < n ==> out[j] == orig[j],
        decreases n - i,
    {
        let b = out[i];
        let r = out[i + 2];
        out[i] = r;
        out[i + 2] = b;
        i = i + 4;
    }
    proof {
        assert(out@ =~= channel_swapped(orig)) by {
            assert forall|j: int| 0 <= j < n implies out[j] == channel_swapped(orig)[j] by {
                if j >= i {
                    // The group containing j starts at or after i, and no
                    // complete group starts there, so byte j is kept.
                    assert(4 * (j / 4) >= i) by (nonlinear_arith)
                        requires
                            j >= i,
                            i % 4 == 0,
                            j >= 0,
                            i >= 0,
                    ;
                }
            }
        }
    }
    out
}

} // verus!
