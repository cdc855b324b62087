use base64::Engine;
use screen_capturer::capture::convert;
use screen_capturer::encode::{bgra_to_rgba_image, capture_to_base64, encode_capture_png};
use screen_capturer::error::{CaptureError, CustomError};

#[test]
fn bgra_to_rgba_image_accepts_exact_buffer() {
    let r = bgra_to_rgba_image(2, 2, vec![0; 16]);
    assert!(r.is_ok());
}

#[test]
fn bgra_to_rgba_image_rejects_larger_buffer() {
    // any length but exactly 4 * width * height is malformed
    let r = bgra_to_rgba_image(1, 1, vec![0; 8]);
    match r {
        Err(e) => assert_eq!(e, CaptureError::MalformedBuffer),
        Ok(_) => panic!("expected a malformed-buffer failure"),
    }
}

#[test]
fn bgra_to_rgba_image_rejects_short_buffer() {
    let r = bgra_to_rgba_image(2, 2, vec![0; 15]);
    match r {
        Err(e) => assert_eq!(e, CaptureError::MalformedBuffer),
        Ok(_) => panic!("expected a malformed-buffer failure"),
    }
}

#[test]
fn encode_capture_png_emits_decodable_png() {
    let img = convert(2, 1, vec![10, 20, 30, 40, 50, 60, 70, 80]).unwrap();
    let png = encode_capture_png(img).unwrap();
    // a PNG, not the raw buffer handed back
    assert_eq!(&png[..8], &[0x89, 0x50, 0x4e, 0x47, 0x0d, 0x0a, 0x1a, 0x0a]);
    let decoded = image::load_from_memory(&png).unwrap().to_rgba8();
    assert_eq!((decoded.width(), decoded.height()), (2, 1));
    assert_eq!(decoded.into_raw(), vec![30, 20, 10, 40, 70, 60, 50, 80]);
}

#[test]
fn capture_to_base64_round_trips() {
    let img = convert(1, 1, vec![1, 2, 3, 4]).unwrap();
    let text = capture_to_base64(img).unwrap();
    // base64 output is padded: length is 4 characters per started 3-byte block
    assert_eq!(text.len() % 4, 0);
    let png = base64::engine::general_purpose::STANDARD
        .decode(text.as_bytes())
        .unwrap();
    let decoded = image::load_from_memory(&png).unwrap().to_rgba8();
    assert_eq!((decoded.width(), decoded.height()), (1, 1));
    assert_eq!(decoded.into_raw(), vec![3, 2, 1, 4]);
}

#[test]
fn zero_area_screenshot_fails_with_encode_error() {
    // a zero-sized capture cannot be serialized; the failure surfaces as
    // EncodeError, never a crash
    let img = convert(0, 0, Vec::new()).unwrap();
    match capture_to_base64(img) {
        Err(e) => assert_eq!(e, CaptureError::EncodeError),
        Ok(_) => panic!("expected an encode failure for a zero-area capture"),
    }
}

#[test]
fn image_write_error_keeps_message() {
    let e = CustomError::ImageWriteError(String::from("encoder failed"));
    assert_eq!(e.message, "encoder failed");
}
