use screen_capturer::capture::convert;
use screen_capturer::error::{CaptureError, CustomError};
use screen_capturer::http::{capture_response, is_capture_path, not_found_response, serve_capture};

#[test]
fn capture_route_matches_exact_path() {
    assert!(is_capture_path(b"/capture_screen"));
    assert!(!is_capture_path(b"/unknown"));
    assert!(!is_capture_path(b"/capture_screen/extra"));
    assert!(!is_capture_path(b"/capture_scree"));
    assert!(!is_capture_path(b""));
}

#[test]
fn unknown_path_gets_404_not_found() {
    let r = not_found_response();
    assert_eq!(r.status, 404);
    assert!(!r.content_type_png);
    assert_eq!(r.body, b"Not Found".to_vec());
}

#[test]
fn failed_capture_gets_404() {
    let r = serve_capture(Err(CaptureError::InvalidWindow));
    assert_eq!(r.status, 404);
    assert!(!r.content_type_png);
    assert_eq!(r.body, b"Not Found".to_vec());

    let r = serve_capture(Err(CaptureError::PixelReadError));
    assert_eq!(r.status, 404);
}

#[test]
fn successful_capture_gets_200_png() {
    // 3 x 2 capture from a raw BGRA buffer
    let raw: Vec<u8> = (0..24).collect();
    let img = convert(3, 2, raw.clone()).unwrap();
    let r = serve_capture(Ok(img));
    assert_eq!(r.status, 200);
    assert!(r.content_type_png);
    assert!(!r.body.is_empty());
    // the body is a real PNG of the captured dimensions and pixels
    assert_eq!(&r.body[..8], &[0x89, 0x50, 0x4e, 0x47, 0x0d, 0x0a, 0x1a, 0x0a]);
    let decoded = image::load_from_memory(&r.body).unwrap().to_rgba8();
    assert_eq!(decoded.width(), 3);
    assert_eq!(decoded.height(), 2);
    let expected: Vec<u8> = raw
        .chunks(4)
        .flat_map(|px| vec![px[2], px[1], px[0], px[3]])
        .collect();
    assert_eq!(decoded.into_raw(), expected);
}

#[test]
fn encoded_bytes_become_the_200_body() {
    let r = capture_response(Ok(vec![9, 8, 7]));
    assert_eq!(r.status, 200);
    assert!(r.content_type_png);
    assert_eq!(r.body, vec![9, 8, 7]);
}

#[test]
fn encoder_failure_becomes_404() {
    let r = capture_response(Err(CustomError::ImageWriteError(String::from("out of space"))));
    assert_eq!(r.status, 404);
    assert_eq!(r.body, b"Not Found".to_vec());
}

#[test]
fn zero_area_capture_is_a_documented_failure() {
    // a zero-sized capture request must not crash; the PNG encoder refuses
    // zero dimensions, so the route answers 404
    let img = convert(0, 0, Vec::new()).unwrap();
    let r = serve_capture(Ok(img));
    assert_eq!(r.status, 404);
    assert_eq!(r.body, b"Not Found".to_vec());
}
