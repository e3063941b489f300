use std::io::Cursor;

use image::{DynamicImage, ImageFormat, RgbaImage};
use window_context::cursor_image::{
    cursor_source, decode_cursor, CursorError, CursorImageError, MAX_CURSOR_SIZE,
};

fn png_bytes(width: u32, height: u32) -> Vec<u8> {
    let image = DynamicImage::ImageRgba8(RgbaImage::new(width, height));
    let mut bytes = Vec::new();
    image.write_to(&mut Cursor::new(&mut bytes), ImageFormat::Png).unwrap();
    bytes
}

#[test]
fn decode_cursor_accepts_small_png() {
    assert!(decode_cursor(&png_bytes(16, 8)).is_ok());
    assert!(decode_cursor(&png_bytes(1, 1)).is_ok());
}

#[test]
fn decode_cursor_rejects_garbage() {
    assert!(matches!(decode_cursor(b"not an image"), Err(CursorError::Undecodable)));
    assert!(matches!(decode_cursor(&[]), Err(CursorError::Undecodable)));
}

#[test]
fn decode_cursor_rejects_too_large_png() {
    let result = decode_cursor(&png_bytes(2049, 1));
    assert!(matches!(
        result,
        Err(CursorError::BadImage(CursorImageError::TooLarge { width: 2049, height: 1 }))
    ));
    assert_eq!(MAX_CURSOR_SIZE, 2048);
}

#[test]
fn cursor_source_accepts_matching_image() {
    assert!(cursor_source(vec![255; 10 * 10 * 4], 10, 10).is_ok());
    assert!(cursor_source(vec![255; 2048 * 2 * 4], 2048, 2).is_ok());
}

#[test]
fn cursor_source_too_large() {
    let r = cursor_source(vec![0; 3000 * 4], 3000, 1);
    assert!(matches!(r, Err(CursorImageError::TooLarge { width: 3000, height: 1 })));
}

#[test]
fn cursor_source_byte_count() {
    let r = cursor_source(vec![0; 5], 1, 1);
    assert!(matches!(r, Err(CursorImageError::ByteCountNotDivisibleBy4 { byte_count: 5 })));
}

#[test]
fn cursor_source_pixel_count() {
    let r = cursor_source(vec![0; 4 * 6], 2, 2);
    assert!(matches!(
        r,
        Err(CursorImageError::DimensionsVsPixelCount {
            width: 2,
            height: 2,
            width_x_height: 4,
            pixel_count: 6
        })
    ));
}

#[test]
fn cursor_source_hotspot_outside_empty_image() {
    let r = cursor_source(Vec::new(), 0, 0);
    assert!(matches!(
        r,
        Err(CursorImageError::HotspotOutOfBounds { width: 0, height: 0, hotspot_x: 0, hotspot_y: 0 })
    ));
}

#[test]
fn cursor_source_truncates_sides() {
    // 65537 wraps to 1 when taken as a 16-bit side.
    assert!(cursor_source(vec![0; 4], 65537, 1).is_ok());
}

#[test]
fn decode_cursor_keeps_png_pixels_accepted() {
    // A 3x2 image: 24 bytes of samples, hotspot (1, 1) inside the image.
    assert!(decode_cursor(&png_bytes(3, 2)).is_ok());
}
