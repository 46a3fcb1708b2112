use rustyfiles::env::app::ImageLimits;
use rustyfiles::utils::img::{
    decode_image_with_limits, decode_within_limits, encode_image, format_or_jpeg, guess_image_format, needs_blur,
    resize_height, ImageKind,
};

#[test]
fn test_guess_image_format() {
    assert_eq!(guess_image_format("foo/bar.png"), ImageKind::Png);
    assert_eq!(guess_image_format("foo/bar.jpg"), ImageKind::Jpeg);
    assert_eq!(guess_image_format("foo/bar.webp"), ImageKind::WebP);
}

#[test]
fn unknown_extensions_fall_back_to_jpeg() {
    assert_eq!(guess_image_format("foo/bar"), ImageKind::Jpeg);
    assert_eq!(guess_image_format("foo/bar.txt"), ImageKind::Jpeg);
    assert_eq!(guess_image_format("foo/bar.AVIF"), ImageKind::Avif);
    assert_eq!(guess_image_format("images/h/a.w100.gif"), ImageKind::Gif);
}

#[test]
fn format_fallback() {
    assert_eq!(format_or_jpeg(None), ImageKind::Jpeg);
    assert_eq!(format_or_jpeg(Some(ImageKind::Qoi)), ImageKind::Qoi);
}

#[test]
fn resize_arithmetic() {
    assert_eq!(resize_height(100, 400, 300), 75);
    assert_eq!(resize_height(3, 7, 5), 2);
    assert!(needs_blur(9, &None));
    assert!(!needs_blur(10, &None));
    assert!(needs_blur(20, &Some("50".to_string())));
    assert!(needs_blur(9, &Some("x".to_string())));
    assert!(!needs_blur(60, &Some("50".to_string())));
}

fn png_of(width: u32, height: u32) -> Vec<u8> {
    let img = image::RgbImage::new(width, height);
    let mut out = std::io::Cursor::new(Vec::new());
    img.write_to(&mut out, image::ImageFormat::Png).unwrap();
    out.into_inner()
}

#[test]
fn decoding_honours_the_limits() {
    let bytes = png_of(4, 3);
    let none = ImageLimits { max_width: None, max_height: None };
    let d = decode_within_limits(&bytes, none).unwrap();
    assert_eq!((d.width, d.height), (4, 3));
    assert_eq!((d.image.width(), d.image.height()), (4, 3));
    let exact = ImageLimits { max_width: Some(4), max_height: Some(3) };
    assert!(decode_within_limits(&bytes, exact).is_ok());
    let narrow = ImageLimits { max_width: Some(3), max_height: None };
    assert!(decode_within_limits(&bytes, narrow).is_err());
    let low = ImageLimits { max_width: None, max_height: Some(2) };
    assert!(decode_within_limits(&bytes, low).is_err());
    assert!(decode_image_with_limits(&bytes, Some(3), None).is_err());
    assert!(decode_image_with_limits(b"not an image", None, None).is_err());
}

#[test]
fn encoded_images_decode_again() {
    let img = image::DynamicImage::ImageRgb8(image::RgbImage::new(5, 2));
    let none = ImageLimits { max_width: None, max_height: None };
    for kind in [ImageKind::Png, ImageKind::Jpeg, ImageKind::Gif] {
        let bytes = encode_image(&img, kind).unwrap();
        let back = decode_within_limits(&bytes, none).unwrap();
        assert_eq!((back.width, back.height), (5, 2));
    }
    let jpeg = encode_image(&img, ImageKind::Jpeg).unwrap();
    assert_eq!(&jpeg[..2], &[0xFF, 0xD8]);
    assert!(encode_image(&img, ImageKind::Dds).is_err());
}

#[test]
fn jpeg_refuses_an_empty_image() {
    let empty = image::DynamicImage::ImageRgb8(image::RgbImage::new(0, 0));
    assert!(encode_image(&empty, ImageKind::Jpeg).is_err());
    let grey = image::DynamicImage::ImageLumaA8(image::GrayAlphaImage::new(3, 3));
    assert!(encode_image(&grey, ImageKind::Jpeg).is_ok());
}
