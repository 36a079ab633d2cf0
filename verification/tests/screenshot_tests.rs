use screenocr::screenshot::crop_region;
use screenocr::screenshot::to_base64_png;
use screenocr::screenshot::CaptureError;
use screenocr::screenshot::CaptureRegion;
use screenocr::screenshot::ScreenCapture;

/// A 2x2 capture whose four pixels are distinct solid colors.
fn four_pixels() -> ScreenCapture {
    let data = vec![
        255, 0, 0, 255, // red
        0, 255, 0, 255, // green
        0, 0, 255, 255, // blue
        255, 255, 255, 255, // white
    ];
    ScreenCapture { width: 2, height: 2, data, x: 10, y: -20 }
}

#[test]
fn crop_picks_the_right_pixel() {
    let capture = four_pixels();
    let region = CaptureRegion { x: 1, y: 0, width: 1, height: 1 };
    let out = crop_region(&capture, &region).unwrap();
    assert_eq!(out.width, 1);
    assert_eq!(out.height, 1);
    assert_eq!(out.data, vec![0, 255, 0, 255]);
    assert_eq!(out.x, 11);
    assert_eq!(out.y, -20);
}

#[test]
fn crop_keeps_rows_in_order() {
    let capture = four_pixels();
    let region = CaptureRegion { x: 0, y: 0, width: 1, height: 2 };
    let out = crop_region(&capture, &region).unwrap();
    assert_eq!(out.data, vec![255, 0, 0, 255, 0, 0, 255, 255]);
}

#[test]
fn oversized_region_is_clamped() {
    let capture = four_pixels();
    let region = CaptureRegion { x: 1, y: 1, width: 5, height: 5 };
    let out = crop_region(&capture, &region).unwrap();
    // the copied rectangle is cut down to the one white pixel, while the
    // advertised dimensions stay as requested
    assert_eq!(out.width, 5);
    assert_eq!(out.height, 5);
    assert_eq!(out.data, vec![255, 255, 255, 255]);
}

#[test]
fn short_buffer_is_refused() {
    let capture = ScreenCapture { width: 2, height: 2, data: vec![0; 15], x: 0, y: 0 };
    let region = CaptureRegion { x: 0, y: 0, width: 1, height: 1 };
    assert!(matches!(crop_region(&capture, &region), Err(CaptureError::BufferMismatch)));
    assert_eq!(to_base64_png(&capture), Err(CaptureError::BufferMismatch));
}

#[test]
fn zero_size_image_is_not_encodable() {
    let capture = ScreenCapture { width: 0, height: 0, data: vec![], x: 0, y: 0 };
    assert_eq!(to_base64_png(&capture), Err(CaptureError::EncodingFailed));
}

#[test]
fn base64_png_starts_with_png_signature() {
    let capture = ScreenCapture { width: 1, height: 1, data: vec![255, 0, 0, 255], x: 0, y: 0 };
    let text = to_base64_png(&capture).unwrap();
    // the eight PNG signature bytes always encode to this prefix
    assert!(text.starts_with("iVBORw0KGgo"));
}

#[test]
fn equal_captures_encode_identically() {
    let first = to_base64_png(&four_pixels()).unwrap();
    let second = to_base64_png(&four_pixels()).unwrap();
    assert!(!first.is_empty());
    assert_eq!(first, second);
}

#[test]
fn base64_png_round_trips_through_a_decoder() {
    let capture = four_pixels();
    let text = to_base64_png(&capture).unwrap();
    let bytes = base64::decode(&text).unwrap();
    assert_eq!(&bytes[..8], &[0x89, 0x50, 0x4e, 0x47, 0x0d, 0x0a, 0x1a, 0x0a]);
}
