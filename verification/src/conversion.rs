//! The conversion itself: from a source path and its bytes to the path and
//! the bytes of the output file.

use vstd::prelude::*;
use image::ImageError;
use crate::codec::{decodable, decode_image, decoded_image, encodable, encode_image};
use crate::error::{ConversionError, MissingPart};
use crate::format::TargetFormat;
use crate::paths::{
    file_name_text, output_path, output_path_text, part_or_missing, path_file_stem, path_parent,
    path_pushed, source_stem,
};

verus! {

/// A converted image, ready to be written.
#[derive(Debug, PartialEq, Eq)]
pub struct ConvertedFile {
    /// Where the file belongs.
    pub path: String,
    /// The encoded image.
    pub bytes: Vec<u8>,
}

/// What a conversion comes to before the image is encoded: the path of the
/// output file, or the first error on the way there. The steps are taken in
/// this order: the stem of the source path, the decoding (`decodes` says
/// whether it succeeds), the format code, the output path.
pub open spec fn planned_output(
    source: Seq<char>,
    format_code: Seq<char>,
    output_directory: Seq<char>,
    decodes: bool,
) -> Result<Seq<char>, ConversionError> {
    match part_or_missing(path_file_stem(source), MissingPart::FileStem) {
        Err(e) => Err(e),
        Ok(stem) => if !decodes {
            Err(ConversionError::Decode)
        } else {
            match TargetFormat::parse_text(format_code) {
                None => Err(ConversionError::UnsupportedFormat),
                Some(format) => output_path_text(source, stem, format, output_directory),
            }
        },
    }
}

/// What a conversion comes to: the path of the file it returns, or its
/// error. After the plan, the encoder decides: an image that it does not
/// accept gives `Save`.
pub open spec fn conversion_outcome(
    source: Seq<char>,
    source_bytes: Seq<u8>,
    format_code: Seq<char>,
    output_directory: Seq<char>,
) -> Result<Seq<char>, ConversionError> {
    match planned_output(source, format_code, output_directory, decodable(source, source_bytes)) {
        Err(e) => Err(e),
        Ok(path) => if encodable(
            decoded_image(source, source_bytes).unwrap(),
            TargetFormat::parse_text(format_code).unwrap(),
        ) {
            Ok(path)
        } else {
            Err(ConversionError::Save)
        },
    }
}

/// Whether `result` is the file at the path, or the error, that `outcome`
/// holds.
pub open spec fn is_outcome(
    result: Result<ConvertedFile, ConversionError>,
    outcome: Result<Seq<char>, ConversionError>,
) -> bool {
    match outcome {
        Ok(path) => result matches Ok(file) && file.path@ == path,
        Err(error) => result matches Err(e) && e == error,
    }
}

/// Ends a conversion whose output path is `path`, given what the encoder
/// returned: its bytes go into the file, its failure becomes `Save`.
pub fn finish(path: String, encoded: Result<Vec<u8>, ImageError>) -> (result: Result<
    ConvertedFile,
    ConversionError,
>)
    ensures
        match encoded {
            Ok(bytes) => result matches Ok(file) && file.path == path && file.bytes == bytes,
            Err(_) => result matches Err(e) && e == ConversionError::Save,
        },
{
    match encoded {
        Ok(bytes) => Ok(ConvertedFile { path, bytes }),
        Err(_) => Err(ConversionError::Save),
    }
}

/// Converts the image in `source_bytes`, read from `source_path`, into the
/// format that `target_format_code` selects.
///
/// The inputs decide the result, as `conversion_outcome` says: the first
/// step that fails gives the error, and where none fails the file is
/// returned with the planned path.
pub fn convert(
    source_path: &str,
    source_bytes: &[u8],
    target_format_code: &str,
    output_directory: &str,
) -> (result: Result<ConvertedFile, ConversionError>)
    ensures
        is_outcome(
            result,
            conversion_outcome(
                source_path@,
                source_bytes@,
                target_format_code@,
                output_directory@,
            ),
        ),
{
    let stem = match source_stem(source_path) {
        Ok(stem) => stem,
        Err(e) => return Err(e),
    };
    let image = match decode_image(source_path, source_bytes) {
        Ok(image) => image,
        Err(_) => return Err(ConversionError::Decode),
    };
    let format = match TargetFormat::from_code(target_format_code) {
        Ok(format) => format,
        Err(e) => return Err(e),
    };
    let path = match output_path(source_path, stem.as_str(), format, output_directory) {
        Ok(path) => path,
        Err(e) => return Err(e),
    };
    finish(path, encode_image(&image, format))
}

/// The steps of a conversion in their order: the first that fails gives the
/// error, and where none fails the file goes to the output path.
pub proof fn lemma_first_failure_decides(
    source: Seq<char>,
    source_bytes: Seq<u8>,
    format_code: Seq<char>,
    output_directory: Seq<char>,
)
    ensures
        conversion_outcome(source, source_bytes, format_code, output_directory) == (
        if path_file_stem(source).is_none() {
            Err::<Seq<char>, ConversionError>(ConversionError::PathParse(MissingPart::FileStem))
        } else if !decodable(source, source_bytes) {
            Err(ConversionError::Decode)
        } else if TargetFormat::parse_text(format_code).is_none() {
            Err(ConversionError::UnsupportedFormat)
        } else if output_directory.len() == 0 && path_parent(source).is_none() {
            Err(ConversionError::PathParse(MissingPart::ParentDirectory))
        } else if !encodable(
            decoded_image(source, source_bytes).unwrap(),
            TargetFormat::parse_text(format_code).unwrap(),
        ) {
            Err(ConversionError::Save)
        } else {
            Ok(
                path_pushed(
                    if output_directory.len() > 0 {
                        output_directory
                    } else {
                        path_parent(source).unwrap()
                    },
                    file_name_text(
                        path_file_stem(source).unwrap(),
                        TargetFormat::parse_text(format_code).unwrap(),
                    ),
                ),
            )
        }),
{
}

/// A supported code, a source with a stem and a place to write, and an
/// image that decodes and that the encoder accepts give a file: its name is
/// the stem, a dot and the code.
pub proof fn lemma_supported_code_gives_file(
    source: Seq<char>,
    source_bytes: Seq<u8>,
    format: TargetFormat,
    output_directory: Seq<char>,
)
    requires
        path_file_stem(source).is_some(),
        output_directory.len() > 0 || path_parent(source).is_some(),
        decodable(source, source_bytes),
        encodable(decoded_image(source, source_bytes).unwrap(), format),
    ensures
        conversion_outcome(source, source_bytes, format.code_text(), output_directory) == Ok::<
            Seq<char>,
            ConversionError,
        >(
            path_pushed(
                if output_directory.len() > 0 {
                    output_directory
                } else {
                    path_parent(source).unwrap()
                },
                file_name_text(path_file_stem(source).unwrap(), format),
            ),
        ),
{
    format.lemma_code_selects_format();
}

/// With no directory chosen, a file that is returned lies in the parent of
/// the source.
pub proof fn lemma_file_goes_beside_source(
    source: Seq<char>,
    source_bytes: Seq<u8>,
    format_code: Seq<char>,
)
    requires
        conversion_outcome(source, source_bytes, format_code, Seq::<char>::empty()).is_ok(),
    ensures
        path_parent(source).is_some(),
        conversion_outcome(source, source_bytes, format_code, Seq::<char>::empty()) == Ok::<
            Seq<char>,
            ConversionError,
        >(
            path_pushed(
                path_parent(source).unwrap(),
                file_name_text(
                    path_file_stem(source).unwrap(),
                    TargetFormat::parse_text(format_code).unwrap(),
                ),
            ),
        ),
{
}

/// With a directory chosen, a file that is returned lies in that directory,
/// whatever the directory of the source.
pub proof fn lemma_file_goes_to_chosen_directory(
    source: Seq<char>,
    source_bytes: Seq<u8>,
    format_code: Seq<char>,
    output_directory: Seq<char>,
)
    requires
        output_directory.len() > 0,
        conversion_outcome(source, source_bytes, format_code, output_directory).is_ok(),
    ensures
        conversion_outcome(source, source_bytes, format_code, output_directory) == Ok::<
            Seq<char>,
            ConversionError,
        >(
            path_pushed(
                output_directory,
                file_name_text(
                    path_file_stem(source).unwrap(),
                    TargetFormat::parse_text(format_code).unwrap(),
                ),
            ),
        ),
{
}

/// A code outside the supported set never gives a file; where the source
/// has a stem and decodes, the error is `UnsupportedFormat`.
pub proof fn lemma_unsupported_code_is_refused(
    source: Seq<char>,
    source_bytes: Seq<u8>,
    format_code: Seq<char>,
    output_directory: Seq<char>,
)
    requires
        TargetFormat::parse_text(format_code).is_none(),
    ensures
        conversion_outcome(source, source_bytes, format_code, output_directory).is_err(),
        path_file_stem(source).is_some() && decodable(source, source_bytes) ==> conversion_outcome(
            source,
            source_bytes,
            format_code,
            output_directory,
        ) == Err::<Seq<char>, ConversionError>(ConversionError::UnsupportedFormat),
{
}

/// Bytes that do not decode give `Decode`, whatever the format code and the
/// directory, once the source path has a stem.
pub proof fn lemma_undecodable_source_is_refused(
    source: Seq<char>,
    source_bytes: Seq<u8>,
    format_code: Seq<char>,
    output_directory: Seq<char>,
)
    requires
        path_file_stem(source).is_some(),
        !decodable(source, source_bytes),
    ensures
        conversion_outcome(source, source_bytes, format_code, output_directory) == Err::<
            Seq<char>,
            ConversionError,
        >(ConversionError::Decode),
{
}

/// Two conversions of the same inputs end alike: both give a file at the
/// same path, or both give the same error.
pub proof fn lemma_repeated_conversion_agrees(
    first: Result<ConvertedFile, ConversionError>,
    second: Result<ConvertedFile, ConversionError>,
    source: Seq<char>,
    source_bytes: Seq<u8>,
    format_code: Seq<char>,
    output_directory: Seq<char>,
)
    requires
        is_outcome(
            first,
            conversion_outcome(source, source_bytes, format_code, output_directory),
        ),
        is_outcome(
            second,
            conversion_outcome(source, source_bytes, format_code, output_directory),
        ),
    ensures
        first.is_ok() == second.is_ok(),
        first matches Ok(a) ==> (second matches Ok(b) && a.path@ == b.path@),
        first matches Err(e) ==> (second matches Err(f) && f == e),
{
}

} // verus!
