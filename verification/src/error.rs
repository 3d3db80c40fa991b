//! The ways in which a conversion can fail.

use vstd::prelude::*;

verus! {

/// The part of a source path that could not be found.
#[derive(Clone, Copy, Debug, PartialEq, Eq, Structural)]
pub enum MissingPart {
    /// The path names no file, so it has no stem.
    FileStem,
    /// The path has no parent directory to write into.
    ParentDirectory,
}

/// Why a conversion stopped.
#[derive(Clone, Copy, Debug, PartialEq, Eq, Structural)]
pub enum ConversionError {
    /// The source path lacks a part that the output path is built from.
    PathParse(MissingPart),
    /// The source file could not be opened.
    Open,
    /// The source bytes are not an image that can be decoded.
    Decode,
    /// The target format code is not one of the supported codes.
    UnsupportedFormat,
    /// The image could not be encoded or written.
    Save,
}

impl ConversionError {
    /// The text shown to the user for this error.
    pub open spec fn message_text(self) -> Seq<char> {
        match self {
            ConversionError::PathParse(MissingPart::FileStem) =>
                "File name couldn't be parsed from given path"@,
            ConversionError::PathParse(MissingPart::ParentDirectory) => "a"@,
            ConversionError::Open => "Couldn't open file"@,
            ConversionError::Decode => "Couldn't decode file"@,
            ConversionError::UnsupportedFormat => "Converting to format not supported"@,
            ConversionError::Save => "Couldn't save file"@,
        }
    }

    /// Renders the error as the text shown to the user.
    pub fn message(&self) -> (text: String)
        ensures
            text@ == self.message_text(),
    {
        match self {
            ConversionError::PathParse(MissingPart::FileStem) =>
                "File name couldn't be parsed from given path".to_owned(),
            ConversionError::PathParse(MissingPart::ParentDirectory) => "a".to_owned(),
            ConversionError::Open => "Couldn't open file".to_owned(),
            ConversionError::Decode => "Couldn't decode file".to_owned(),
            ConversionError::UnsupportedFormat => "Converting to format not supported".to_owned(),
            ConversionError::Save => "Couldn't save file".to_owned(),
        }
    }
}

} // verus!
