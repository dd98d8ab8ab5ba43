use base64::Engine;
use icon_resolver::bitmap::{icon_to_image, ConversionError, NativeBitmap, RgbaImage};
use icon_resolver::codec::{encode_icon, get_icon_from_base64, load_image};

fn word(b: u8, g: u8, r: u8, a: u8) -> u32 {
    u32::from_le_bytes([b, g, r, a])
}

fn pattern(width: i32, height: i32) -> NativeBitmap {
    let mut pixels = Vec::new();
    for y in 0..height {
        for x in 0..width {
            pixels.push(word(x as u8, y as u8, (x + 10 * y) as u8, 255 - x as u8));
        }
    }
    NativeBitmap { width, height, pixels }
}

#[test]
fn bitmap_round_trip_keeps_channels_and_rows() {
    let image = icon_to_image(&pattern(5, 3)).unwrap();
    assert_eq!(image.width(), 5);
    assert_eq!(image.height(), 3);
    for y in 0..3u32 {
        for x in 0..5u32 {
            let expected = [(x + 10 * y) as u8, y as u8, x as u8, 255 - x as u8];
            assert_eq!(image.get_pixel(x, y), Some(expected));
        }
    }
}

#[test]
fn single_word_is_reordered_to_rgba() {
    let bitmap = NativeBitmap { width: 1, height: 1, pixels: vec![0x1122_3344] };
    let image = icon_to_image(&bitmap).unwrap();
    assert_eq!(image.as_raw(), &vec![0x22, 0x33, 0x44, 0x11]);
    assert_eq!(image.into_raw(), vec![0x22, 0x33, 0x44, 0x11]);
}

#[test]
fn rows_are_not_flipped() {
    let bitmap = NativeBitmap {
        width: 1,
        height: 2,
        pixels: vec![word(0, 0, 255, 255), word(255, 0, 0, 255)],
    };
    let image = icon_to_image(&bitmap).unwrap();
    assert_eq!(image.get_pixel(0, 0), Some([255, 0, 0, 255]));
    assert_eq!(image.get_pixel(0, 1), Some([0, 0, 255, 255]));
}

#[test]
fn bitmap_without_pixels_is_refused() {
    for (width, height) in [(0, 4), (4, 0), (0, 0), (-1, 4), (4, -4), (i32::MIN, i32::MIN)] {
        let bitmap = NativeBitmap { width, height, pixels: Vec::new() };
        assert_eq!(icon_to_image(&bitmap).unwrap_err(), ConversionError::EmptyBitmap);
    }
}

#[test]
fn bitmap_of_the_wrong_length_is_refused() {
    let short = NativeBitmap { width: 2, height: 2, pixels: vec![0; 3] };
    assert_eq!(icon_to_image(&short).unwrap_err(), ConversionError::SizeMismatch);
    let long = NativeBitmap { width: 2, height: 2, pixels: vec![0; 5] };
    assert_eq!(icon_to_image(&long).unwrap_err(), ConversionError::SizeMismatch);
    let huge = NativeBitmap { width: i32::MAX, height: 2, pixels: vec![0; 4] };
    assert_eq!(icon_to_image(&huge).unwrap_err(), ConversionError::SizeMismatch);
}

#[test]
fn image_needs_four_bytes_for_each_pixel() {
    assert!(RgbaImage::from_raw(2, 1, vec![0; 8]).is_some());
    assert!(RgbaImage::from_raw(2, 1, vec![0; 7]).is_none());
    assert!(RgbaImage::from_raw(2, 1, vec![0; 9]).is_none());
    assert!(RgbaImage::from_raw(0, 0, Vec::new()).is_some());
    assert!(RgbaImage::from_raw(0, 7, Vec::new()).is_some());
    assert!(RgbaImage::from_raw(u32::MAX, u32::MAX, Vec::new()).is_none());
}

#[test]
fn pixel_outside_the_image_is_absent() {
    let image = RgbaImage::from_raw(2, 1, vec![1, 2, 3, 4, 5, 6, 7, 8]).unwrap();
    assert_eq!(image.get_pixel(1, 0), Some([5, 6, 7, 8]));
    assert_eq!(image.get_pixel(2, 0), None);
    assert_eq!(image.get_pixel(0, 1), None);
}

#[test]
fn encoded_icon_is_a_png_file_in_base64() {
    let image = icon_to_image(&pattern(4, 2)).unwrap();
    let text = encode_icon(&image).unwrap();
    assert!(text.starts_with("iVBORw0KGgo"));
    let file = base64::engine::general_purpose::STANDARD.decode(&text).unwrap();
    assert_eq!(&file[..8], &[0x89, b'P', b'N', b'G', 0x0d, 0x0a, 0x1a, 0x0a]);
    let decoded = image::load_from_memory(&file).unwrap().to_rgba8();
    assert_eq!(decoded.width(), 4);
    assert_eq!(decoded.height(), 2);
    assert_eq!(&decoded.into_raw(), image.as_raw());
}

#[test]
fn encoding_and_decoding_gives_the_image_back() {
    let image = icon_to_image(&pattern(7, 5)).unwrap();
    let text = encode_icon(&image).unwrap();
    let back = get_icon_from_base64(&text).unwrap();
    assert_eq!(back.width(), 7);
    assert_eq!(back.height(), 5);
    assert_eq!(back.as_raw(), image.as_raw());
}

#[test]
fn image_without_pixels_cannot_be_encoded() {
    let image = RgbaImage::from_raw(0, 0, Vec::new()).unwrap();
    assert_eq!(encode_icon(&image), None);
}

#[test]
fn asset_file_is_decoded_to_rgba() {
    let image = icon_to_image(&pattern(3, 3)).unwrap();
    let text = encode_icon(&image).unwrap();
    let file = base64::engine::general_purpose::STANDARD.decode(&text).unwrap();
    let loaded = load_image(&file).unwrap();
    assert_eq!(loaded.width(), 3);
    assert_eq!(loaded.height(), 3);
    assert_eq!(loaded.as_raw(), image.as_raw());
}

#[test]
fn bytes_that_are_no_image_give_nothing() {
    assert!(load_image(&Vec::new()).is_none());
    assert!(load_image(&vec![1, 2, 3, 4, 5, 6, 7, 8, 9, 10, 11, 12]).is_none());
    assert!(load_image(&b"<svg/>".to_vec()).is_none());
}

#[test]
fn text_that_is_no_base64_gives_nothing() {
    assert!(get_icon_from_base64("***").is_none());
    assert!(get_icon_from_base64("").is_none());
    assert!(get_icon_from_base64("aGVsbG8=").is_none());
}
