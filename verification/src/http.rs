//! The capture server's HTTP surface: one capture route, a not-found
//! fallback, and the response built for each capture outcome.
//!
//! The listener serves exactly one path, `/capture_screen`; every other
//! path gets 404 "Not Found".  A successful capture answers 200 with a
//! PNG body; a capture that fails for any reason answers 404.

use vstd::prelude::*;
use crate::capture::CaptureResult;
use crate::encode::{encode_capture_png, png_encoding};
use crate::error::{CaptureError, CustomError};

verus! {

/// The one path the listener serves, `/capture_screen`, as ASCII bytes.
pub open spec fn capture_path() -> Seq<u8> {
    seq![
        47u8,
        99u8,
        97u8,
        112u8,
        116u8,
        117u8,
        114u8,
        101u8,
        95u8,
        115u8,
        99u8,
        114u8,
        101u8,
        101u8,
        110u8,
    ]
}

/// The body of every failure response, `Not Found`, as ASCII bytes.
pub open spec fn not_found_body() -> Seq<u8> {
    seq![78u8, 111u8, 116u8, 32u8, 70u8, 111u8, 117u8, 110u8, 100u8]
}

/// A response of the capture server: status code, whether the body carries
/// the PNG content type, and the body bytes.
pub struct HttpResponse {
    pub status: u16,
    pub content_type_png: bool,
    pub body: Vec<u8>,
}

/// Whether a request path is the capture route.  Only the exact path
/// `/capture_screen` matches.
pub fn is_capture_path(path: &[u8]) -> (r: bool)
    ensures
        r == (path@ == capture_path()),
{
    let expected: Vec<u8> = vec![
        47u8,
        99u8,
        97u8,
        112u8,
        116u8,
        117u8,
        114u8,
        101u8,
        95u8,
        115u8,
        99u8,
        114u8,
        101u8,
        101u8,
        110u8,
    ];
    proof {
        assert(expected@ =~= capture_path());
    }
    if path.len() != expected.len() {
        proof {
            assert(path@ != capture_path());
        }
        return false;
    }
    let n: usize = expected.len();
    let mut i: usize = 0;
    while i < n
        invariant
            n == expected.len() == path@.len(),
            expected@ == capture_path(),
            i <= n,
            forall|j: int| 0 <= j < i ==> path@[j] == expected@[j],
        decreases n - i,
    {
        if path[i] != expected[i] {
            return false;
        }
        i = i + 1;
    }
    proof {
        assert(path@ =~= capture_path());
    }
    true
}

/// The response for every path but the capture route: 404 "Not Found".
pub fn not_found_response() -> (r: HttpResponse)
    ensures
        r.status == 404,
        !r.content_type_png,
        r.body@ == not_found_body(),
{
    let body: Vec<u8> = vec![78u8, 111u8, 116u8, 32u8, 70u8, 111u8, 117u8, 110u8, 100u8];
    proof {
        assert(body@ =~= not_found_body());
    }
    HttpResponse { status: 404, content_type_png: false, body }
}

/// Builds the capture route's response from the encoder's outcome: encoded
/// bytes are answered 200 with the `image/png` content type and the bytes
/// as the body; an encoding failure is answered 404 "Not Found".
pub fn capture_response(encoded: Result<Vec<u8>, CustomError>) -> (r: HttpResponse)
    ensures
        encoded is Ok ==> r.status == 200 && r.content_type_png && r.body@ == encoded->Ok_0@,
        encoded is Err ==> r.status == 404 && !r.content_type_png && r.body@ == not_found_body(),
{
    match encoded {
        Ok(png) => HttpResponse { status: 200, content_type_png: true, body: png },
        Err(_) => not_found_response(),
    }
}

/// Builds the response of the capture route from the capture's outcome.
///
/// A captured image of nonzero dimensions is encoded as PNG and answered
/// 200 with the `image/png` content type; a failed capture — an invalid
/// window, a failed native call, or a failed encode (a zero-area capture)
/// — answers 404, and the listener stays up.
pub fn serve_capture(outcome: Result<CaptureResult, CaptureError>) -> (r: HttpResponse)
    requires
        outcome is Ok ==> outcome->Ok_0.wf(),
    ensures
        outcome is Err ==> r.status == 404 && !r.content_type_png && r.body@ == not_found_body(),
        outcome is Ok ==> {
            ||| (r.status == 200 && r.content_type_png && r.body@ == png_encoding(
                outcome->Ok_0.width,
                outcome->Ok_0.height,
                outcome->Ok_0.buffer@,
            ))
            ||| (r.status == 404 && !r.content_type_png && r.body@ == not_found_body())
        },
        outcome is Ok && outcome->Ok_0.width >= 1 && outcome->Ok_0.height >= 1 ==> r.status == 200
            && r.content_type_png && r.body@ == png_encoding(
            outcome->Ok_0.width,
            outcome->Ok_0.height,
            outcome->Ok_0.buffer@,
        ),
{
    match outcome {
        Ok(img) => capture_response(encode_capture_png(img)),
        Err(_) => not_found_response(),
    }
}

} // verus!
