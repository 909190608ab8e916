use map_photography::bytes_per_pixel;
use map_photography::image::{Image, Rgba};
use map_photography::readback::{bytes_per_row, padded_bytes_per_row, unpad_rows};

fn rgba(r: u8, g: u8, b: u8, a: u8) -> Rgba {
    Rgba { r, g, b, a }
}

#[test]
fn filled_image_has_exact_pixel_count() {
    let red = rgba(255, 0, 0, 255);
    let img = Image::filled(3, 2, red);
    assert_eq!(img.width, 3);
    assert_eq!(img.height, 2);
    assert_eq!(img.pixels.len(), 6);
    for y in 0..2 {
        for x in 0..3 {
            assert_eq!(img.pixel(x, y), red);
        }
    }
}

#[test]
fn image_bytes_are_four_per_pixel() {
    // W*H pixels and exactly 4 bytes per pixel, for several resolutions.
    assert_eq!(bytes_per_pixel(), 4);
    for (w, h) in [(1u32, 1u32), (4, 4), (16, 9), (1920, 1080)] {
        let img = Image::filled(w, h, rgba(1, 2, 3, 4));
        assert_eq!(img.pixels.len(), (w * h) as usize);
        assert_eq!(img.to_bytes().len(), (4 * w * h) as usize);
    }
}

#[test]
fn to_bytes_is_rgba_channel_order() {
    let mut img = Image::filled(2, 1, rgba(10, 20, 30, 40));
    img.set_pixel(1, 0, rgba(50, 60, 70, 80));
    assert_eq!(img.to_bytes(), vec![10, 20, 30, 40, 50, 60, 70, 80]);
}

#[test]
fn set_pixel_changes_only_that_pixel() {
    let mut img = Image::filled(2, 2, rgba(0, 0, 0, 255));
    img.set_pixel(1, 1, rgba(9, 9, 9, 9));
    assert_eq!(img.pixel(0, 0), rgba(0, 0, 0, 255));
    assert_eq!(img.pixel(1, 0), rgba(0, 0, 0, 255));
    assert_eq!(img.pixel(0, 1), rgba(0, 0, 0, 255));
    assert_eq!(img.pixel(1, 1), rgba(9, 9, 9, 9));
}

#[test]
fn bytes_round_trip_through_image() {
    let bytes: Vec<u8> = (0..24).collect();
    let img = Image::from_bytes(3, 2, &bytes);
    assert_eq!(img.width, 3);
    assert_eq!(img.height, 2);
    assert_eq!(img.pixel(0, 0), rgba(0, 1, 2, 3));
    assert_eq!(img.pixel(2, 1), rgba(20, 21, 22, 23));
    assert_eq!(img.to_bytes(), bytes);
}

#[test]
fn packed_row_is_four_bytes_per_pixel() {
    assert_eq!(bytes_per_row(1), 4);
    assert_eq!(bytes_per_row(1920), 7680);
}

#[test]
fn padded_row_is_aligned_and_minimal() {
    // Already aligned: no padding is added.
    assert_eq!(padded_bytes_per_row(64), 256);
    assert_eq!(padded_bytes_per_row(1920), 7680);
    // Not aligned: padded up to the next multiple of 256.
    assert_eq!(padded_bytes_per_row(1), 256);
    assert_eq!(padded_bytes_per_row(100), 512);
    assert_eq!(padded_bytes_per_row(65), 512);
}

#[test]
fn unpad_rows_strips_the_alignment_padding() {
    // 1 pixel per row (4 packed bytes), rows padded to 8 bytes, 2 rows.
    let padded = vec![1, 2, 3, 4, 99, 99, 99, 99, 5, 6, 7, 8, 99, 99, 99, 99];
    let out = unpad_rows(&padded, 1, 2, 8);
    assert_eq!(out, vec![1, 2, 3, 4, 5, 6, 7, 8]);
}

#[test]
fn unpad_rows_keeps_unpadded_buffers_unchanged() {
    let padded: Vec<u8> = (0..16).collect();
    // 2 pixels per row (8 packed bytes) and 8 padded bytes: no padding.
    let out = unpad_rows(&padded, 2, 2, 8);
    assert_eq!(out, padded);
}
