use xcap_core::capture::capture;
use xcap_core::capture::capture_rgb;
use xcap_core::error::XCapError;
use xcap_core::pixel::RawCaptureBuffer;

fn two_pixel_raw() -> RawCaptureBuffer {
    // Two pixels in blue-green-red-alpha order, one per row, each row
    // padded with 4 trailing bytes that must be ignored.
    RawCaptureBuffer {
        width: 1,
        height: 2,
        bytes_per_row: 8,
        bytes: vec![10, 20, 30, 255, 0, 0, 0, 0, 200, 150, 100, 255, 0, 0, 0, 0],
    }
}

#[test]
fn normalize_end_to_end_four_channels() {
    let img = capture(&two_pixel_raw()).unwrap();
    assert_eq!(img.width, 1);
    assert_eq!(img.height, 2);
    assert_eq!(img.bytes().as_slice(), &[30, 20, 10, 255, 100, 150, 200, 255]);
}

#[test]
fn normalize_end_to_end_three_channels() {
    let img = capture_rgb(&two_pixel_raw()).unwrap();
    assert_eq!(img.width, 1);
    assert_eq!(img.height, 2);
    let bytes = img.bytes();
    assert_eq!(bytes.len(), 1 * 2 * 3);
    assert_eq!(bytes.as_slice(), &[30, 20, 10, 100, 150, 200]);
    for b in bytes {
        assert_ne!(*b, 255u8, "an alpha byte reached the 3-channel output");
    }
}

#[test]
fn normalize_matches_image_crate_layout() {
    let img = capture(&two_pixel_raw()).unwrap();
    let reference =
        image::RgbaImage::from_raw(1, 2, vec![30, 20, 10, 255, 100, 150, 200, 255]).unwrap();
    assert_eq!(img.bytes().as_slice(), reference.as_raw().as_slice());
    assert_eq!((img.width, img.height), reference.dimensions());
}

#[test]
fn normalize_inconsistent_geometry_fails() {
    let raw = RawCaptureBuffer {
        width: 1,
        height: 2,
        bytes_per_row: 8,
        bytes: vec![0; 15],
    };
    match capture(&raw) {
        Err(e) => assert_eq!(e, XCapError::DecodeFailed),
        Ok(_) => panic!("inconsistent buffer was accepted"),
    }
    let raw = RawCaptureBuffer {
        width: 3,
        height: 1,
        bytes_per_row: 8,
        bytes: vec![0; 8],
    };
    match capture_rgb(&raw) {
        Err(e) => assert_eq!(e, XCapError::DecodeFailed),
        Ok(_) => panic!("inconsistent buffer was accepted"),
    }
}

#[test]
fn normalize_zero_size_buffer() {
    let raw = RawCaptureBuffer {
        width: 0,
        height: 0,
        bytes_per_row: 0,
        bytes: Vec::new(),
    };
    let img = capture(&raw).unwrap();
    assert_eq!((img.width, img.height), (0, 0));
    assert!(img.bytes().is_empty());
}
