//! Decoding and encoding, done by the `image` crate.

use vstd::prelude::*;
use std::io::Cursor;
use image::{DynamicImage, ImageError, ImageFormat, ImageReader};
use crate::format::TargetFormat;

verus! {

/// A decoded image. Nothing is known of what it holds.
#[verifier::external_type_specification]
#[verifier::external_body]
pub struct ExDynamicImage(image::DynamicImage);

/// An error of the `image` crate. Nothing is known of what it holds.
#[verifier::external_type_specification]
#[verifier::external_body]
pub struct ExImageError(image::ImageError);

/// The image that `bytes` decode to, in the format that the extension of
/// `source_path` stands for, or `None` where they do not decode.
pub uninterp spec fn decoded_image(source_path: Seq<char>, bytes: Seq<u8>) -> Option<
    DynamicImage,
>;

/// Whether the encoder of `format` accepts `image`.
pub uninterp spec fn encodable(image: DynamicImage, format: TargetFormat) -> bool;

/// Whether `bytes` decode as an image of the format that the extension of
/// `source_path` stands for.
pub open spec fn decodable(source_path: Seq<char>, bytes: Seq<u8>) -> bool {
    decoded_image(source_path, bytes).is_some()
}

/// Decodes `bytes` with `ImageReader::decode`, in the format that
/// `ImageFormat::from_path` reads off the extension of `source_path`.
///
/// Believed: the outcome depends on the path and the bytes alone, under the
/// name `decoded_image`. Nothing is claimed about what the image holds.
#[verifier::external_body]
pub(crate) fn decode_image(source_path: &str, bytes: &[u8]) -> (decoded: Result<
    DynamicImage,
    ImageError,
>)
    ensures
        match decoded {
            Ok(image) => decoded_image(source_path@, bytes@) == Some(image),
            Err(_) => decoded_image(source_path@, bytes@).is_none(),
        },
{
    let format = ImageFormat::from_path(source_path)?;
    ImageReader::with_format(Cursor::new(bytes), format).decode()
}

/// Encodes `image` with `DynamicImage::write_to` into a fresh buffer.
///
/// Believed: whether the encoder accepts the image depends on the image and
/// the format alone, under the name `encodable`; it writes to memory, so
/// nothing else can fail. Nothing is claimed about the bytes: how the
/// encoder compresses is its own affair.
#[verifier::external_body]
pub(crate) fn encode_image(image: &DynamicImage, format: TargetFormat) -> (encoded: Result<
    Vec<u8>,
    ImageError,
>)
    ensures
        encoded.is_ok() == encodable(*image, format),
{
    let mut buffer = Cursor::new(Vec::new());
    let tag = match format {
        TargetFormat::Jpeg => ImageFormat::Jpeg,
        TargetFormat::Png => ImageFormat::Png,
        TargetFormat::WebP => ImageFormat::WebP,
    };
    image.write_to(&mut buffer, tag)?;
    Ok(buffer.into_inner())
}

} // verus!
