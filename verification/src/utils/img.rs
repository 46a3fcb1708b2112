//! The image format that a path names, and decoding within the configured
//! dimension limits.
use image::ImageFormat as F;
use crate::env::app::ImageLimits;
use crate::text::{chars_of, parse_unsigned, parse_unsigned_range};
use vstd::prelude::*;
use ImageKind as K;

verus! {

/// The image formats that the codec library knows by a file extension.
#[derive(Clone, Copy, Debug, PartialEq, Eq)]
pub enum ImageKind {
    Png,
    Jpeg,
    Gif,
    WebP,
    Pnm,
    Tiff,
    Tga,
    Dds,
    Bmp,
    Ico,
    Hdr,
    OpenExr,
    Farbfeld,
    Avif,
    Qoi,
    Pcx,
}

/// The format that `image::ImageFormat::from_path` reads from the extension
/// of `path`; none where it knows no format for it.
pub uninterp spec fn image_format_of_path(path: Seq<char>) -> Option<ImageKind>;

/// The format named by the extension of `path`.
///
/// Trusted wrapper around `image::ImageFormat::from_path`; its table of
/// extensions is named, not restated. Each format of the codec library is
/// turned into the library's variant of the same name.
#[verifier::external_body]
#[allow(deprecated)]
fn format_from_path(path: &str) -> (r: Option<ImageKind>)
    ensures
        r == image_format_of_path(path@),
{
    let f = F::from_path(path).ok()?;
    Some(match f {
        F::Png => K::Png, F::Jpeg => K::Jpeg, F::Gif => K::Gif, F::WebP => K::WebP,
        F::Pnm => K::Pnm, F::Tiff => K::Tiff, F::Tga => K::Tga, F::Dds => K::Dds,
        F::Bmp => K::Bmp, F::Ico => K::Ico, F::Hdr => K::Hdr, F::OpenExr => K::OpenExr,
        F::Farbfeld => K::Farbfeld, F::Avif => K::Avif, F::Qoi => K::Qoi, F::Pcx => K::Pcx,
        _ => return None,
    })
}

/// The format to encode a file at `path` in: the one its extension names,
/// or JPEG.
pub open spec fn spec_guess_image_format(path: Seq<char>) -> ImageKind {
    match image_format_of_path(path) {
        Some(k) => k,
        None => ImageKind::Jpeg,
    }
}

/// The format to encode a file at `path` in: the one its extension names,
/// or JPEG.
pub fn guess_image_format(path: &str) -> (r: ImageKind)
    ensures
        r == spec_guess_image_format(path@),
{
    format_or_jpeg(format_from_path(path))
}

/// The format found, or JPEG where none was.
pub fn format_or_jpeg(found: Option<ImageKind>) -> (r: ImageKind)
    ensures
        r == match found {
            Some(k) => k,
            None => ImageKind::Jpeg,
        },
{
    match found {
        Some(k) => k,
        None => ImageKind::Jpeg,
    }
}

/// The height that keeps the aspect ratio of a `width` by `height` image
/// resized to `target_width` (rounded down).
pub fn resize_height(target_width: u32, width: u32, height: u32) -> (r: u32)
    requires
        width > 0,
        target_width * height <= u32::MAX,
    ensures
        r as int == (target_width * height) as int / (width as int),
{
    target_width * height / width
}

/// The width below which a resized image is blurred: `threshold` (the value
/// of `RESIZED_IMAGE_BLUR_THRESHOLD`) parsed as a `u32`, else 10.
pub open spec fn spec_blur_threshold(threshold: Option<Seq<char>>) -> u32 {
    match threshold {
        Some(t) => match parse_unsigned(t, u32::MAX as nat) {
            Some(n) => n as u32,
            None => 10,
        },
        None => 10,
    }
}

/// Whether an image resized to `width` is blurred.
pub fn needs_blur(width: u32, threshold: &Option<String>) -> (r: bool)
    ensures
        r == (width < spec_blur_threshold(
            match threshold {
                Some(t) => Some(t@),
                None => None,
            },
        )),
{
    let limit = match threshold {
        Some(t) => {
            let cs = chars_of(t.as_str());
            assert(cs@.subrange(0, cs@.len() as int) == cs@);
            match parse_unsigned_range(&cs, 0, cs.len(), u32::MAX) {
                Some(n) => n,
                None => 10,
            }
        },
        None => 10,
    };
    width < limit
}

/// A decoded image of the codec library; the library carries it through and
/// never looks inside.
#[verifier::external_type_specification]
#[verifier::external_body]
pub struct ExDynamicImage(image::DynamicImage);

/// The width and height that the codec library reads from the header of an
/// encoded image, its format guessed from its first bytes; none where it
/// recognises no format or cannot read the header.
pub uninterp spec fn encoded_dimensions(bytes: Seq<u8>) -> Option<(u32, u32)>;

/// Whether the codec library decodes `bytes`, its format guessed from its
/// first bytes, with no cap on the dimensions (its default cap on the memory
/// a decode may allocate applies).
pub uninterp spec fn decodes(bytes: Seq<u8>) -> bool;

/// The width and height of a decoded image.
pub uninterp spec fn dimensions_of(image: image::DynamicImage) -> (u32, u32);

/// Decodes an image, refusing one wider than `max_width` or higher than
/// `max_height` (a guard against decompression bombs); `None` sets no cap.
///
/// Trusted wrapper around `image::ImageReader::with_guessed_format` and
/// `ImageReader::decode` with `Limits` holding the two caps. In the codec
/// library's source every decoder reads the header first and compares its
/// dimensions with the caps before it decodes any pixel; the caps play no
/// other part, so with the header within them the decode goes as it goes
/// without caps. The decoded image has the header's dimensions. The pixels,
/// and the text of an error, are left unsaid.
#[verifier::external_body]
pub fn decode_image_with_limits(bytes: &[u8], max_width: Option<u32>, max_height: Option<u32>) -> (r: Result<image::DynamicImage, String>)
    ensures
        r is Ok <==> {
            &&& decodes(bytes@)
            &&& encoded_dimensions(bytes@) is Some
            &&& (max_width matches Some(m) ==> encoded_dimensions(bytes@).unwrap().0 <= m)
            &&& (max_height matches Some(m) ==> encoded_dimensions(bytes@).unwrap().1 <= m)
        },
        r matches Ok(img) ==> dimensions_of(img) == encoded_dimensions(bytes@).unwrap(),
{
    let mut reader = image::ImageReader::new(std::io::Cursor::new(bytes)).with_guessed_format().map_err(|e| e.to_string())?;
    let mut limits = image::Limits::default();
    limits.max_image_width = max_width;
    limits.max_image_height = max_height;
    reader.limits(limits);
    reader.decode().map_err(|e| e.to_string())
}

/// The width and height of a decoded image.
///
/// Trusted wrapper around `DynamicImage::width` and `DynamicImage::height`.
#[verifier::external_body]
fn image_dimensions(image: &image::DynamicImage) -> (r: (u32, u32))
    ensures
        r == dimensions_of(*image),
{
    (image.width(), image.height())
}

/// Dimensions `(width, height)` are within `limits`.
pub open spec fn within_limits(dims: (u32, u32), limits: ImageLimits) -> bool {
    &&& (limits.max_width matches Some(m) ==> dims.0 <= m)
    &&& (limits.max_height matches Some(m) ==> dims.1 <= m)
}

/// An image decoded under the configured limits, with its width and height.
pub struct DecodedImage {
    pub image: image::DynamicImage,
    pub width: u32,
    pub height: u32,
}

/// Decodes an image under the configured limits: it decodes exactly when
/// the codec library decodes it and the dimensions in its header are within
/// the limits, and then it has those dimensions.
pub fn decode_within_limits(bytes: &[u8], limits: ImageLimits) -> (r: Result<DecodedImage, String>)
    ensures
        r is Ok <==> {
            &&& decodes(bytes@)
            &&& encoded_dimensions(bytes@) is Some
            &&& within_limits(encoded_dimensions(bytes@).unwrap(), limits)
        },
        r matches Ok(d) ==> {
            &&& encoded_dimensions(bytes@) == Some((d.width, d.height))
            &&& dimensions_of(d.image) == (d.width, d.height)
        },
{
    match decode_image_with_limits(bytes, limits.max_width, limits.max_height) {
        Ok(image) => {
            let (width, height) = image_dimensions(&image);
            Ok(DecodedImage { image, width, height })
        },
        Err(e) => Err(e),
    }
}

/// What the baseline JPEG encoder of the codec library makes of an image:
/// its bytes, or none where it refuses the image.
pub uninterp spec fn jpeg_encoding(image: image::DynamicImage) -> Option<Seq<u8>>;

/// What the codec library's default encoder for `format` makes of an image:
/// its bytes, or none where it refuses the image or has no encoder for the
/// format.
pub uninterp spec fn written_in(image: image::DynamicImage, format: ImageKind) -> Option<Seq<u8>>;

/// A JPEG can hold an image of these dimensions: each side from 1 to 65535.
pub open spec fn jpeg_size_ok(dims: (u32, u32)) -> bool {
    1 <= dims.0 <= 65535 && 1 <= dims.1 <= 65535
}

/// The bytes of an encoding, or none where it failed.
pub open spec fn encoded_bytes(r: Result<Vec<u8>, String>) -> Option<Seq<u8>> {
    match r {
        Ok(b) => Some(b@),
        Err(_) => None,
    }
}

/// Encodes an image as a baseline JPEG.
///
/// Trusted wrapper around `image::codecs::jpeg::JpegEncoder::new` and
/// `DynamicImage::write_with_encoder`; the encoding depends on the image
/// alone and is named, not described. In the codec library's source the
/// image is first turned into 8-bit grey or RGB, and the encoder refuses it
/// only where a side is 0 or above 65535 (writing to memory cannot fail).
/// The text of an error is left unsaid.
#[verifier::external_body]
fn encode_jpeg(image: &image::DynamicImage) -> (r: Result<Vec<u8>, String>)
    ensures
        encoded_bytes(r) == jpeg_encoding(*image),
        r is Ok <==> jpeg_size_ok(dimensions_of(*image)),
{
    let mut buffer = std::io::Cursor::new(Vec::new());
    let encoder = image::codecs::jpeg::JpegEncoder::new(&mut buffer);
    image.write_with_encoder(encoder).map_err(|e| e.to_string())?;
    Ok(buffer.into_inner())
}

/// Encodes an image in `format` with the codec library's default encoder.
///
/// Trusted wrapper around `DynamicImage::write_to`; each format is turned into
/// the codec library's format of the same name. The encoding depends on the
/// image and the format alone and is named, not described. The text of an
/// error is left unsaid.
#[verifier::external_body]
#[allow(deprecated)]
fn write_in_format(image: &image::DynamicImage, format: ImageKind) -> (r: Result<Vec<u8>, String>)
    ensures
        encoded_bytes(r) == written_in(*image, format),
{
    let f = match format {
        K::Png => F::Png, K::Jpeg => F::Jpeg, K::Gif => F::Gif, K::WebP => F::WebP,
        K::Pnm => F::Pnm, K::Tiff => F::Tiff, K::Tga => F::Tga, K::Dds => F::Dds,
        K::Bmp => F::Bmp, K::Ico => F::Ico, K::Hdr => F::Hdr, K::OpenExr => F::OpenExr,
        K::Farbfeld => F::Farbfeld, K::Avif => F::Avif, K::Qoi => F::Qoi, K::Pcx => F::Pcx,
    };
    let mut buffer = std::io::Cursor::new(Vec::new());
    image.write_to(&mut buffer, f).map_err(|e| e.to_string())?;
    Ok(buffer.into_inner())
}

/// Encodes an image in `format`: JPEG through the baseline JPEG encoder, any
/// other format through the codec library's default encoder for it.
pub fn encode_image(image: &image::DynamicImage, format: ImageKind) -> (r: Result<Vec<u8>, String>)
    ensures
        format == ImageKind::Jpeg ==> encoded_bytes(r) == jpeg_encoding(*image),
        format == ImageKind::Jpeg ==> (r is Ok <==> jpeg_size_ok(dimensions_of(*image))),
        format != ImageKind::Jpeg ==> encoded_bytes(r) == written_in(*image, format),
{
    match format {
        ImageKind::Jpeg => encode_jpeg(image),
        _ => write_in_format(image, format),
    }
}

} // verus!
