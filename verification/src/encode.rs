//! Encoding a finished capture for transport: the RGBA buffer is wrapped in
//! an image of the `image` crate, serialized as PNG, and — for the direct
//! caller-facing path — rendered as base64 text.
//!
//! The image wrapping, the PNG serialization and the base64 rendering are
//! the work of outside crates, reached through the trusted items below; the
//! decisions around them are verified.

use vstd::prelude::*;
use base64::Engine;
use crate::capture::CaptureResult;
use crate::error::{CaptureError, CustomError};
use crate::pixel::channel_swapped;

verus! {

/// A finished RGBA image, held for the encoder.  The pixel bytes, width and
/// height it holds are named by `bitmap_data`, `bitmap_width` and
/// `bitmap_height`.
#[verifier::external_body]
pub struct RgbaBitmap {
    inner: image::RgbaImage,
}

/// The pixel bytes a bitmap holds, row-major RGBA.
pub uninterp spec fn bitmap_data(b: RgbaBitmap) -> Seq<u8>;

/// The width a bitmap was built with.
pub uninterp spec fn bitmap_width(b: RgbaBitmap) -> u32;

/// The height a bitmap was built with.
pub uninterp spec fn bitmap_height(b: RgbaBitmap) -> u32;

/// The PNG serialization of an RGBA image: a function of the dimensions and
/// pixel bytes alone.
pub uninterp spec fn png_encoding(width: u32, height: u32, data: Seq<u8>) -> Seq<u8>;

/// The base64 rendering (RFC 4648 standard alphabet, padded) of a byte
/// string: a function of the bytes alone.
pub uninterp spec fn base64_of(bytes: Seq<u8>) -> Seq<char>;

/// The error type of the `image` crate's encoders.
#[verifier::external_type_specification]
#[verifier::external_body]
pub struct ExImageError(image::ImageError);

/// Relies on image::ImageBuffer::from_raw: it succeeds exactly when the
/// container holds at least `4 * width * height` bytes, and keeps the
/// container as the image's pixel data.
#[verifier::external_body]
fn rgba_from_raw(width: u32, height: u32, buf: Vec<u8>) -> (r: Option<RgbaBitmap>)
    ensures
        r is Some <==> 4 * width * height <= buf@.len(),
        r is Some ==> bitmap_data(r->0) == buf@ && bitmap_width(r->0) == width && bitmap_height(
            r->0,
        ) == height,
{
    image::RgbaImage::from_raw(width, height, buf).map(|img| RgbaBitmap { inner: img })
}

/// Relies on image::ImageBuffer::write_to with the PNG format: on success
/// the writer holds the PNG serialization of the image, a function of its
/// dimensions and pixel bytes alone.  On this path — 8-bit RGBA pixels
/// handed to the encoder at exactly `4 * width * height` bytes, written to
/// an in-memory cursor — the encoder refuses only a zero width or height,
/// so a capture of nonzero dimensions always encodes.
#[verifier::external_body]
fn png_encode(b: &RgbaBitmap) -> (r: Result<Vec<u8>, image::ImageError>)
    ensures
        r is Ok ==> r->Ok_0@ == png_encoding(bitmap_width(*b), bitmap_height(*b), bitmap_data(*b)),
        bitmap_width(*b) >= 1 && bitmap_height(*b) >= 1 ==> r is Ok,
{
    let mut cursor = std::io::Cursor::new(Vec::new());
    match b.inner.write_to(&mut cursor, image::ImageFormat::Png) {
        Ok(()) => Ok(cursor.into_inner()),
        Err(e) => Err(e),
    }
}

/// Relies on std's ToString through image::ImageError's Display impl: the
/// encoder's failure message.
#[verifier::external_body]
fn image_error_message(e: &image::ImageError) -> String {
    e.to_string()
}

/// Relies on the base64 crate's STANDARD engine: the output is a function
/// of the input bytes alone, four characters for every started three-byte
/// block.
#[verifier::external_body]
fn base64_encode(bytes: &Vec<u8>) -> (r: String)
    ensures
        r@ == base64_of(bytes@),
        r@.len() == 4 * ((bytes@.len() + 2) / 3),
{
    base64::engine::general_purpose::STANDARD.encode(bytes)
}

/// Wraps a raw BGRA buffer as a finished RGBA image: the channels are
/// swapped, then the buffer becomes the image's pixel data.  Fails with
/// `MalformedBuffer` unless the buffer holds exactly `4 * width * height`
/// bytes.
pub fn bgra_to_rgba_image(width: u32, height: u32, buffer: Vec<u8>) -> (r: Result<
    RgbaBitmap,
    CaptureError,
>)
    ensures
        r is Ok <==> buffer@.len() == 4 * width * height,
        r is Err ==> r->Err_0 == CaptureError::MalformedBuffer,
        r is Ok ==> bitmap_data(r->Ok_0) == channel_swapped(buffer@) && bitmap_width(r->Ok_0)
            == width && bitmap_height(r->Ok_0) == height,
{
    let img = match crate::capture::convert(width, height, buffer) {
        Ok(img) => img,
        Err(e) => {
            return Err(e);
        },
    };
    match rgba_from_raw(width, height, img.buffer) {
        Some(b) => Ok(b),
        // a converted capture's buffer fits its dimensions exactly
        None => unreached(),
    }
}

/// Serializes a finished capture as PNG.
///
/// The capture's buffer becomes the image's pixel data unchanged, so on
/// success the bytes are exactly the PNG serialization of the capture's
/// dimensions and buffer; every capture of nonzero dimensions succeeds.
/// An encoder failure — a zero-area capture — is returned as an
/// image-write error carrying the encoder's message.
pub fn encode_capture_png(img: CaptureResult) -> (r: Result<Vec<u8>, CustomError>)
    requires
        img.wf(),
    ensures
        r is Ok ==> r->Ok_0@ == png_encoding(img.width, img.height, img.buffer@),
        img.width >= 1 && img.height >= 1 ==> r is Ok,
{
    let bitmap = match rgba_from_raw(img.width, img.height, img.buffer) {
        Some(b) => b,
        // A well-formed capture's buffer always fits its dimensions.
        None => unreached(),
    };
    match png_encode(&bitmap) {
        Ok(png) => Ok(png),
        Err(e) => Err(CustomError::ImageWriteError(image_error_message(&e))),
    }
}

/// Renders a finished capture as base64-encoded PNG text, the direct
/// caller-facing screenshot form.  Every capture of nonzero dimensions
/// succeeds; a failed serialization — a zero-area capture — surfaces as
/// `EncodeError`.
pub fn capture_to_base64(img: CaptureResult) -> (r: Result<String, CaptureError>)
    requires
        img.wf(),
    ensures
        r is Ok ==> r->Ok_0@ == base64_of(png_encoding(img.width, img.height, img.buffer@)),
        img.width >= 1 && img.height >= 1 ==> r is Ok,
        r is Err ==> r->Err_0 == CaptureError::EncodeError,
{
    let png = match encode_capture_png(img) {
        Ok(png) => png,
        Err(_) => {
            return Err(CaptureError::EncodeError);
        },
    };
    Ok(base64_encode(&png))
}

} // verus!
