use screen_capturer::capture::convert;
use screen_capturer::error::CaptureError;
use screen_capturer::geometry::{capture_dims, ScaleFactor};

#[test]
fn convert_builds_rgba_capture() {
    let img = convert(2, 1, vec![1, 2, 3, 4, 5, 6, 7, 8]).unwrap();
    assert_eq!(img.width, 2);
    assert_eq!(img.height, 1);
    assert_eq!(img.buffer, vec![3, 2, 1, 4, 7, 6, 5, 8]);
}

#[test]
fn convert_rejects_short_buffer() {
    let r = convert(2, 2, vec![0; 15]);
    assert_eq!(r.unwrap_err(), CaptureError::MalformedBuffer);
}

#[test]
fn convert_rejects_long_buffer() {
    let r = convert(1, 1, vec![0; 5]);
    assert_eq!(r.unwrap_err(), CaptureError::MalformedBuffer);
}

#[test]
fn convert_zero_area_yields_empty_capture() {
    let img = convert(0, 0, Vec::new()).unwrap();
    assert_eq!(img.width, 0);
    assert_eq!(img.height, 0);
    assert!(img.buffer.is_empty());
}

#[test]
fn capture_buffer_length_matches_scaled_dims() {
    // client 100 x 51 at scale 3/2: ceil(150) x ceil(76.5) = 150 x 77
    let scale = ScaleFactor::new(3, 2).unwrap();
    let (w, h) = capture_dims(100, 51, scale).unwrap();
    assert_eq!((w, h), (150, 77));
    let raw = vec![0u8; (w * h * 4) as usize];
    let img = convert(w, h, raw).unwrap();
    assert_eq!(img.buffer.len(), (w * h * 4) as usize);
}

#[test]
fn capture_dims_identity_scale() {
    let scale = ScaleFactor::new(1, 1).unwrap();
    assert_eq!(capture_dims(640, 480, scale), Some((640, 480)));
}

#[test]
fn capture_dims_rounds_up() {
    // 7 * 1 / 3 = 2.33.. rounds up to 3
    let scale = ScaleFactor::new(1, 3).unwrap();
    assert_eq!(capture_dims(7, 9, scale), Some((3, 3)));
}

#[test]
fn capture_dims_zero_client_area() {
    let scale = ScaleFactor::new(2, 1).unwrap();
    assert_eq!(capture_dims(0, 0, scale), Some((0, 0)));
}

#[test]
fn capture_dims_overflow_refused() {
    let scale = ScaleFactor::new(u32::MAX, 1).unwrap();
    assert_eq!(capture_dims(u32::MAX, 1, scale), None);
}

#[test]
fn stale_window_handle_is_rejected() {
    assert_eq!(
        screen_capturer::capture::validate_window(0),
        Err(CaptureError::InvalidWindow)
    );
    assert_eq!(screen_capturer::capture::validate_window(42), Ok(()));
}

#[test]
fn client_extent_clamps_at_zero() {
    assert_eq!(screen_capturer::geometry::client_extent(10, 30), 20);
    assert_eq!(screen_capturer::geometry::client_extent(30, 10), 0);
    assert_eq!(screen_capturer::geometry::client_extent(-5, 5), 10);
    assert_eq!(
        screen_capturer::geometry::client_extent(i32::MIN, i32::MAX),
        u32::MAX
    );
}

#[test]
fn scale_factor_must_be_positive() {
    assert!(ScaleFactor::new(0, 1).is_none());
    assert!(ScaleFactor::new(1, 0).is_none());
    assert!(ScaleFactor::new(2, 3).is_some());
}
