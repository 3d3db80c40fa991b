//! The formats an image can be converted into, and their codes.

use vstd::prelude::*;
use crate::error::ConversionError;

verus! {

/// A format that an image can be converted into.
#[derive(Clone, Copy, Debug, PartialEq, Eq, Structural)]
pub enum TargetFormat {
    Jpeg,
    Png,
    WebP,
}

impl TargetFormat {
    /// The code of this format, which is also the extension of its files.
    pub open spec fn code_text(self) -> Seq<char> {
        match self {
            TargetFormat::Jpeg => "jpg"@,
            TargetFormat::Png => "png"@,
            TargetFormat::WebP => "webp"@,
        }
    }

    /// The format that a code selects, if any. Codes are case-sensitive.
    pub open spec fn parse_text(code: Seq<char>) -> Option<TargetFormat> {
        if code == "jpg"@ {
            Some(TargetFormat::Jpeg)
        } else if code == "png"@ {
            Some(TargetFormat::Png)
        } else if code == "webp"@ {
            Some(TargetFormat::WebP)
        } else {
            None
        }
    }

    /// Reads a format code. Exactly `jpg`, `png` and `webp` are accepted.
    pub fn from_code(code: &str) -> (result: Result<TargetFormat, ConversionError>)
        ensures
            result == match Self::parse_text(code@) {
                Some(format) => Ok::<TargetFormat, ConversionError>(format),
                None => Err(ConversionError::UnsupportedFormat),
            },
    {
        let given = code.to_owned();
        if given == "jpg".to_owned() {
            Ok(TargetFormat::Jpeg)
        } else if given == "png".to_owned() {
            Ok(TargetFormat::Png)
        } else if given == "webp".to_owned() {
            Ok(TargetFormat::WebP)
        } else {
            Err(ConversionError::UnsupportedFormat)
        }
    }

    /// The code of this format.
    pub fn code(self) -> (code: &'static str)
        ensures
            code@ == self.code_text(),
    {
        match self {
            TargetFormat::Jpeg => "jpg",
            TargetFormat::Png => "png",
            TargetFormat::WebP => "webp",
        }
    }

    /// Reading a format's own code gives that format back.
    pub proof fn lemma_code_selects_format(self)
        ensures
            Self::parse_text(self.code_text()) == Some(self),
    {
        reveal_strlit("jpg");
        reveal_strlit("png");
        reveal_strlit("webp");
        assert("jpg"@[0] != "png"@[0]);
        assert("jpg"@.len() != "webp"@.len());
        assert("png"@.len() != "webp"@.len());
    }

    /// A code that selects a format is that format's code.
    pub proof fn lemma_selected_format_has_code(code: Seq<char>)
        ensures
            Self::parse_text(code) matches Some(format) ==> format.code_text() == code,
    {
    }
}

} // verus!
