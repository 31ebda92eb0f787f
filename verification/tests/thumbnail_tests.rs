use base64::Engine;
use session_bridge::error::BridgeError;
use session_bridge::thumbnail::{decode, encode, fit_dimensions, render, shrink_to_fit, Bitmap};
use std::io::Cursor;

fn gradient(width: u32, height: u32) -> image::RgbaImage {
    let mut picture = image::RgbaImage::new(width, height);
    for (x, y, pixel) in picture.enumerate_pixels_mut() {
        *pixel = image::Rgba([(x % 256) as u8, (y % 256) as u8, ((x + y) % 256) as u8, 255]);
    }
    picture
}

fn file_bytes(picture: &image::RgbaImage, format: image::ImageFormat) -> Vec<u8> {
    let mut bytes: Vec<u8> = Vec::new();
    image::DynamicImage::ImageRgba8(picture.clone())
        .write_to(&mut Cursor::new(&mut bytes), format)
        .unwrap();
    bytes
}

fn picture_of(text: &str) -> image::RgbaImage {
    let png = base64::engine::general_purpose::STANDARD.decode(text).unwrap();
    assert_eq!(image::guess_format(&png).unwrap(), image::ImageFormat::Png);
    image::load_from_memory(&png).unwrap().into_rgba8()
}

#[test]
fn wide_image_is_scaled_to_48_by_24() {
    assert_eq!(fit_dimensions(200, 100, 48, 48), (48, 24));
}

#[test]
fn tall_image_is_scaled_to_24_by_48() {
    assert_eq!(fit_dimensions(100, 200, 48, 48), (24, 48));
}

#[test]
fn image_inside_the_box_keeps_its_size() {
    assert_eq!(fit_dimensions(30, 40, 48, 48), (30, 40));
    assert_eq!(fit_dimensions(48, 48, 48, 48), (48, 48));
    assert_eq!(fit_dimensions(1, 1, 48, 48), (1, 1));
    assert_eq!(fit_dimensions(0, 0, 48, 48), (0, 0));
}

#[test]
fn one_side_over_the_box_scales_both() {
    assert_eq!(fit_dimensions(49, 10, 48, 48), (48, 10));
    assert_eq!(fit_dimensions(10, 96, 48, 48), (5, 48));
}

#[test]
fn scaled_sides_round_to_nearest_with_halves_up() {
    // 30 * 48 / 1000 = 1.44, 31.25 * 48 / 1000 rounds alike
    assert_eq!(fit_dimensions(1000, 30, 48, 48), (48, 1));
    // 3 * 48 / 96 = 1.5
    assert_eq!(fit_dimensions(96, 3, 48, 48), (48, 2));
    // 1 * 48 / 1000 = 0.048
    assert_eq!(fit_dimensions(1, 1000, 48, 48), (0, 48));
}

#[test]
fn smaller_bound_rules_an_uneven_box() {
    assert_eq!(fit_dimensions(200, 100, 64, 32), (32, 16));
    assert_eq!(fit_dimensions(100, 200, 64, 32), (16, 32));
}

#[test]
fn largest_sides_do_not_overflow() {
    assert_eq!(fit_dimensions(u32::MAX, u32::MAX, u32::MAX - 1, u32::MAX), (u32::MAX - 1, u32::MAX - 1));
    assert_eq!(fit_dimensions(u32::MAX, 1, 48, 48), (48, 0));
}

#[test]
fn small_image_is_rendered_unscaled() {
    let picture = gradient(10, 20);
    let text = encode(&file_bytes(&picture, image::ImageFormat::Png), 48, 48).unwrap();
    let thumbnail = picture_of(&text);
    assert_eq!(thumbnail.dimensions(), (10, 20));
    assert_eq!(thumbnail.as_raw(), picture.as_raw());
}

#[test]
fn large_image_is_rendered_inside_the_box() {
    let picture = gradient(200, 100);
    let text = encode(&file_bytes(&picture, image::ImageFormat::Png), 48, 48).unwrap();
    let thumbnail = picture_of(&text);
    assert_eq!(thumbnail.dimensions(), (48, 24));
}

#[test]
fn output_is_png_whatever_the_input_format() {
    let picture = gradient(120, 60);
    let text = encode(&file_bytes(&picture, image::ImageFormat::Bmp), 48, 48).unwrap();
    assert!(text.starts_with("iVBORw0KGgo"));
    assert_eq!(text.len() % 4, 0);
    assert!(!text.contains('\n'));
    assert_eq!(picture_of(&text).dimensions(), (48, 24));
}

#[test]
fn very_thin_image_keeps_one_pixel() {
    let picture = gradient(1, 1000);
    let text = encode(&file_bytes(&picture, image::ImageFormat::Png), 48, 48).unwrap();
    assert_eq!(picture_of(&text).dimensions(), (1, 48));
}

#[test]
fn longer_side_meets_the_bound_exactly() {
    let picture = image::RgbaImage::new(500, 109);
    let text = encode(&file_bytes(&picture, image::ImageFormat::Png), 48, 48).unwrap();
    assert_eq!(picture_of(&text).dimensions(), (48, 10));
}

#[test]
fn equal_bytes_give_equal_text() {
    let bytes = file_bytes(&gradient(200, 100), image::ImageFormat::Png);
    assert_eq!(encode(&bytes, 48, 48).unwrap(), encode(&bytes.clone(), 48, 48).unwrap());
}

#[test]
fn bytes_that_are_no_image_give_a_decode_error() {
    let outcome = encode(&b"this is not an image".to_vec(), 48, 48);
    assert!(matches!(outcome, Err(BridgeError::DecodeError(_))));
    assert!(matches!(encode(&Vec::new(), 48, 48), Err(BridgeError::DecodeError(_))));
}

#[test]
fn truncated_image_gives_a_decode_error() {
    let mut bytes = file_bytes(&gradient(20, 20), image::ImageFormat::Png);
    bytes.truncate(40);
    assert!(matches!(decode(&bytes), Err(BridgeError::DecodeError(_))));
}

#[test]
fn decode_returns_rgba_samples() {
    let picture = gradient(7, 5);
    let bitmap = decode(&file_bytes(&picture, image::ImageFormat::Png)).unwrap();
    assert_eq!((bitmap.width, bitmap.height), (7, 5));
    assert_eq!(bitmap.pixels.len(), 4 * 7 * 5);
    assert_eq!(&bitmap.pixels, picture.as_raw());
}

#[test]
fn shrink_leaves_a_fitting_bitmap_alone() {
    let picture = gradient(48, 12);
    let bitmap = Bitmap { width: 48, height: 12, pixels: picture.as_raw().clone() };
    let thumb = shrink_to_fit(bitmap, 48, 48);
    assert_eq!((thumb.width, thumb.height), (48, 12));
    assert_eq!(&thumb.pixels, picture.as_raw());
}

#[test]
fn shrink_resamples_a_large_bitmap() {
    let picture = gradient(300, 150);
    let bitmap = Bitmap { width: 300, height: 150, pixels: picture.into_raw() };
    let thumb = shrink_to_fit(bitmap, 48, 48);
    assert_eq!((thumb.width, thumb.height), (48, 24));
    assert_eq!(thumb.pixels.len(), 4 * 48 * 24);
}

#[test]
fn render_writes_base64_of_a_png_file() {
    let bitmap = Bitmap { width: 2, height: 1, pixels: vec![255, 0, 0, 255, 0, 0, 255, 128] };
    let text = render(&bitmap).unwrap();
    assert_ne!(text.as_bytes(), bitmap.pixels.as_slice());
    let picture = picture_of(&text);
    assert_eq!(picture.dimensions(), (2, 1));
    assert_eq!(picture.as_raw(), &bitmap.pixels);
}

#[test]
fn thumbnail_has_exactly_the_scaled_size() {
    let picture = gradient(1000, 30);
    let bitmap = Bitmap { width: 1000, height: 30, pixels: picture.into_raw() };
    let thumb = shrink_to_fit(bitmap, 48, 48);
    assert_eq!((thumb.width, thumb.height), (48, 1));
    assert_eq!(thumb.pixels.len(), 4 * 48);
}

#[test]
fn text_is_padded_base64_of_a_png_file() {
    for (width, height) in [(1u32, 1u32), (3, 2), (48, 48), (90, 17)] {
        let text = encode(&file_bytes(&gradient(width, height), image::ImageFormat::Gif), 48, 48).unwrap();
        assert_eq!(text.len() % 4, 0);
        assert!(text.starts_with("iVBORw0KGgo"));
        let png = base64::engine::general_purpose::STANDARD.decode(&text).unwrap();
        assert_eq!(&png[..8], &[0x89, 0x50, 0x4E, 0x47, 0x0D, 0x0A, 0x1A, 0x0A]);
        assert_eq!(text.len(), 4 * ((png.len() + 2) / 3));
    }
}

#[test]
fn decode_errors_say_what_failed() {
    match decode(&vec![0u8; 16]) {
        Err(error) => assert!(error.message().starts_with("Failed to decode image: ")),
        Ok(_) => panic!("zeros are no image"),
    }
}

#[test]
fn jpeg_input_is_accepted() {
    let picture = image::DynamicImage::ImageRgba8(gradient(64, 64)).into_rgb8();
    let mut bytes: Vec<u8> = Vec::new();
    image::DynamicImage::ImageRgb8(picture)
        .write_to(&mut Cursor::new(&mut bytes), image::ImageFormat::Jpeg)
        .unwrap();
    let text = encode(&bytes, 48, 48).unwrap();
    assert_eq!(picture_of(&text).dimensions(), (48, 48));
}

#[test]
fn scaled_sizes_stay_in_the_box_and_keep_the_aspect() {
    let sides: [u32; 9] = [1, 2, 3, 47, 48, 49, 100, 1000, 65535];
    let bounds: [(u32, u32); 4] = [(48, 48), (1, 1), (64, 32), (10, 300)];
    for &width in sides.iter() {
        for &height in sides.iter() {
            for &(max_width, max_height) in bounds.iter() {
                let (fitted_width, fitted_height) = fit_dimensions(width, height, max_width, max_height);
                if width <= max_width && height <= max_height {
                    assert_eq!((fitted_width, fitted_height), (width, height));
                } else {
                    assert!(fitted_width <= max_width && fitted_height <= max_height);
                    let skew = (fitted_width as i64) * (height as i64) - (fitted_height as i64) * (width as i64);
                    assert!(2 * skew.abs() <= (width as i64) + (height as i64));
                }
            }
        }
    }
}
