use std::io::Cursor;

use image::{DynamicImage, ImageFormat, Rgb, RgbImage, Rgba, RgbaImage};
use image_convert::conversion::{finish, ConvertedFile};
use image_convert::convert;
use image_convert::error::{ConversionError, MissingPart};

fn picture(width: u32, height: u32) -> DynamicImage {
    let mut pixels = RgbImage::new(width, height);
    for (x, y, pixel) in pixels.enumerate_pixels_mut() {
        *pixel = Rgb([(x * 40) as u8, (y * 60) as u8, 128]);
    }
    DynamicImage::ImageRgb8(pixels)
}

fn encoded(image: &DynamicImage, format: ImageFormat) -> Vec<u8> {
    let mut buffer = Cursor::new(Vec::new());
    image.write_to(&mut buffer, format).unwrap();
    buffer.into_inner()
}

fn error_of(result: Result<ConvertedFile, ConversionError>) -> ConversionError {
    match result {
        Ok(file) => panic!("converted to {}", file.path),
        Err(e) => e,
    }
}

#[test]
fn png_becomes_jpg_beside_the_source() {
    let source = picture(5, 3);
    let file = convert("photos/a.png", &encoded(&source, ImageFormat::Png), "jpg", "").unwrap();
    assert_eq!(file.path, "photos/a.jpg");
    assert_eq!(image::guess_format(&file.bytes).unwrap(), ImageFormat::Jpeg);
    let again = image::load_from_memory(&file.bytes).unwrap();
    assert_eq!((again.width(), again.height()), (5, 3));
}

#[test]
fn every_supported_code_converts() {
    let source = picture(7, 4);
    let bytes = encoded(&source, ImageFormat::Png);
    for (code, format) in
        [("jpg", ImageFormat::Jpeg), ("png", ImageFormat::Png), ("webp", ImageFormat::WebP)]
    {
        let file = convert("/in/shot.png", &bytes, code, "/out").unwrap();
        assert_eq!(file.path, format!("/out/shot.{code}"));
        assert_eq!(image::guess_format(&file.bytes).unwrap(), format);
        let again = image::load_from_memory(&file.bytes).unwrap();
        assert_eq!((again.width(), again.height()), (7, 4));
    }
}

#[test]
fn lossless_targets_keep_the_pixels() {
    let source = picture(6, 6);
    let bytes = encoded(&source, ImageFormat::Png);
    for code in ["png", "webp"] {
        let file = convert("shot.png", &bytes, code, "").unwrap();
        assert_eq!(file.path, format!("shot.{code}"));
        let again = image::load_from_memory(&file.bytes).unwrap();
        assert_eq!(again.to_rgb8().into_raw(), source.to_rgb8().into_raw());
    }
}

#[test]
fn jpeg_source_is_decoded_by_its_extension() {
    let source = picture(8, 8);
    let file = convert("a/b/c.jpeg", &encoded(&source, ImageFormat::Jpeg), "png", "").unwrap();
    assert_eq!(file.path, "a/b/c.png");
    let again = image::load_from_memory(&file.bytes).unwrap();
    assert_eq!((again.width(), again.height()), (8, 8));
}

#[test]
fn image_with_alpha_converts_to_jpg() {
    let source = DynamicImage::ImageRgba8(RgbaImage::from_pixel(4, 2, Rgba([10, 20, 30, 200])));
    let file = convert("t.png", &encoded(&source, ImageFormat::Png), "jpg", "/tmp").unwrap();
    assert_eq!(file.path, "/tmp/t.jpg");
    let again = image::load_from_memory(&file.bytes).unwrap();
    assert_eq!((again.width(), again.height()), (4, 2));
}

#[test]
fn unsupported_code_is_refused() {
    let bytes = encoded(&picture(2, 2), ImageFormat::Png);
    assert_eq!(error_of(convert("x.png", &bytes, "bmp", "/tmp")), ConversionError::UnsupportedFormat);
    assert_eq!(error_of(convert("x.png", &bytes, "JPG", "")), ConversionError::UnsupportedFormat);
    assert_eq!(error_of(convert("x.png", &bytes, "", "")), ConversionError::UnsupportedFormat);
}

#[test]
fn text_is_not_an_image() {
    let text = b"just a few words, no picture".to_vec();
    assert_eq!(error_of(convert("notes.png", &text, "jpg", "")), ConversionError::Decode);
    assert_eq!(error_of(convert("notes.txt", &text, "jpg", "")), ConversionError::Decode);
    assert_eq!(error_of(convert("notes.png", &[], "png", "/tmp")), ConversionError::Decode);
}

#[test]
fn extension_decides_the_source_format() {
    let bytes = encoded(&picture(2, 2), ImageFormat::Png);
    assert_eq!(error_of(convert("shot.jpg", &bytes, "png", "")), ConversionError::Decode);
    assert_eq!(error_of(convert("shot", &bytes, "png", "")), ConversionError::Decode);
    assert!(convert("shot.PNG", &bytes, "png", "").is_ok());
}

#[test]
fn path_without_stem_fails_first() {
    let bytes = encoded(&picture(2, 2), ImageFormat::Png);
    let missing = ConversionError::PathParse(MissingPart::FileStem);
    assert_eq!(error_of(convert("", &bytes, "jpg", "/tmp")), missing);
    assert_eq!(error_of(convert("photos/..", &[], "bmp", "")), missing);
    assert_eq!(error_of(convert("/", &bytes, "png", "")), missing);
}

#[test]
fn decoding_fails_before_the_code_is_read() {
    let text = b"no picture".to_vec();
    assert_eq!(error_of(convert("x.png", &text, "bmp", "/tmp")), ConversionError::Decode);
}

#[test]
fn chosen_directory_overrides_the_source_directory() {
    let bytes = encoded(&picture(3, 3), ImageFormat::Png);
    let near = convert("photos/a.png", &bytes, "webp", "").unwrap();
    let one = convert("photos/a.png", &bytes, "webp", "/exports").unwrap();
    let other = convert("/somewhere/else/a.png", &bytes, "webp", "/exports").unwrap();
    assert_eq!(near.path, "photos/a.webp");
    assert_eq!(one.path, "/exports/a.webp");
    assert_eq!(other.path, "/exports/a.webp");
}

#[test]
fn converting_twice_gives_the_same_picture() {
    let bytes = encoded(&picture(9, 5), ImageFormat::Png);
    for code in ["jpg", "png", "webp"] {
        let first = convert("photos/a.png", &bytes, code, "out").unwrap();
        let second = convert("photos/a.png", &bytes, code, "out").unwrap();
        assert_eq!(first.path, second.path);
        let one = image::load_from_memory(&first.bytes).unwrap();
        let two = image::load_from_memory(&second.bytes).unwrap();
        assert_eq!(one.to_rgba8().into_raw(), two.to_rgba8().into_raw());
    }
}

#[test]
fn encoder_bytes_end_up_in_the_file() {
    let file = finish("out/a.png".to_string(), Ok(vec![1, 2, 3])).unwrap();
    assert_eq!(file.path, "out/a.png");
    assert_eq!(file.bytes, vec![1, 2, 3]);
}

#[test]
fn encoder_failure_is_a_save_error() {
    let failure = image::ImageError::IoError(std::io::Error::other("disk full"));
    assert_eq!(error_of(finish("out/a.png".to_string(), Err(failure))), ConversionError::Save);
}

#[test]
fn picture_too_tall_for_jpg_is_a_save_error() {
    let tall = DynamicImage::ImageLuma8(image::GrayImage::new(1, 70_000));
    let bytes = encoded(&tall, ImageFormat::Png);
    assert_eq!(error_of(convert("tall.png", &bytes, "jpg", "")), ConversionError::Save);
    assert_eq!(convert("tall.png", &bytes, "png", "").unwrap().path, "tall.png");
}

#[test]
fn dotted_name_keeps_every_part_of_its_stem() {
    let bytes = encoded(&DynamicImage::ImageRgb8(RgbImage::new(2, 2)), ImageFormat::Png);
    let file = convert("/in/photo.v2.png", &bytes, "jpg", "/out").unwrap();
    assert_eq!(file.path, "/out/photo.v2.jpg");
    let again = image::load_from_memory(&file.bytes).unwrap();
    assert_eq!((again.width(), again.height()), (2, 2));
}

#[test]
fn converting_twice_succeeds_twice() {
    let bytes = encoded(&picture(3, 2), ImageFormat::Png);
    for code in ["jpg", "png", "webp"] {
        assert!(convert("photos/a.png", &bytes, code, "").is_ok());
        assert!(convert("photos/a.png", &bytes, code, "").is_ok());
    }
    let tall = encoded(&DynamicImage::ImageLuma8(image::GrayImage::new(1, 70_000)), ImageFormat::Png);
    assert_eq!(error_of(convert("tall.png", &tall, "jpg", "")), ConversionError::Save);
    assert_eq!(error_of(convert("tall.png", &tall, "jpg", "")), ConversionError::Save);
}
