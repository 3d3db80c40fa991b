//! A conversion as a dialogue: the caller reads and writes the files and
//! reports what happened; the library says what to do next.

use vstd::prelude::*;
use crate::conversion::{conversion_outcome, convert, ConvertedFile};
use crate::error::{ConversionError, MissingPart};
use crate::format::TargetFormat;
use crate::paths::{path_file_stem, source_stem};

verus! {

/// What the caller reports.
#[derive(Debug, PartialEq, Eq)]
pub enum Event {
    /// A conversion was asked for; nothing has been done yet.
    Requested,
    /// The source file could not be opened.
    OpenFailed,
    /// The source file was opened, but reading it failed.
    ReadFailed,
    /// The source file was read; these are its bytes.
    SourceRead(Vec<u8>),
    /// The output file could not be written.
    WriteFailed,
    /// The output file was written.
    Written,
}

/// What the caller is to do next.
#[derive(Debug, PartialEq, Eq)]
pub enum Action {
    /// Open the source file and read it whole.
    ReadSource,
    /// Write this file, replacing what is there.
    WriteOutput(ConvertedFile),
    /// Stop, with this result.
    Finish(Result<(), ConversionError>),
}

/// Whether `action` is the answer to `event` in the conversion of
/// `source` into the format of `format_code`, with `output_directory`.
pub open spec fn answers(
    action: Action,
    source: Seq<char>,
    format_code: Seq<char>,
    output_directory: Seq<char>,
    event: Event,
) -> bool {
    match event {
        Event::Requested => if path_file_stem(source).is_some() {
            action is ReadSource
        } else {
            action == Action::Finish(Err(ConversionError::PathParse(MissingPart::FileStem)))
        },
        Event::OpenFailed => action == Action::Finish(Err(ConversionError::Open)),
        Event::ReadFailed => action == Action::Finish(Err(ConversionError::Decode)),
        Event::SourceRead(bytes) => match conversion_outcome(
            source,
            bytes@,
            format_code,
            output_directory,
        ) {
            Ok(path) => action matches Action::WriteOutput(file) && file.path@ == path,
            Err(error) => action == Action::Finish(Err(error)),
        },
        Event::WriteFailed => action == Action::Finish(Err(ConversionError::Save)),
        Event::Written => action == Action::Finish(Ok(())),
    }
}

/// Answers `event` with the next action of the conversion.
pub fn advance(
    source_path: &str,
    target_format_code: &str,
    output_directory: &str,
    event: Event,
) -> (action: Action)
    ensures
        answers(action, source_path@, target_format_code@, output_directory@, event),
{
    match event {
        Event::Requested => match source_stem(source_path) {
            Ok(_) => Action::ReadSource,
            Err(e) => Action::Finish(Err(e)),
        },
        Event::OpenFailed => Action::Finish(Err(ConversionError::Open)),
        Event::ReadFailed => Action::Finish(Err(ConversionError::Decode)),
        Event::SourceRead(bytes) => match convert(
            source_path,
            bytes.as_slice(),
            target_format_code,
            output_directory,
        ) {
            Ok(file) => Action::WriteOutput(file),
            Err(e) => Action::Finish(Err(e)),
        },
        Event::WriteFailed => Action::Finish(Err(ConversionError::Save)),
        Event::Written => Action::Finish(Ok(())),
    }
}

/// With a format code outside the supported set nothing is ever written,
/// whatever the caller reports.
pub proof fn lemma_unsupported_code_never_writes(
    action: Action,
    source: Seq<char>,
    format_code: Seq<char>,
    output_directory: Seq<char>,
    event: Event,
)
    requires
        TargetFormat::parse_text(format_code).is_none(),
        answers(action, source, format_code, output_directory, event),
    ensures
        !(action is WriteOutput),
{
}

/// A source that cannot be opened ends the conversion with `Open`, and
/// nothing is written.
pub proof fn lemma_unopened_source_never_writes(
    action: Action,
    source: Seq<char>,
    format_code: Seq<char>,
    output_directory: Seq<char>,
)
    requires
        answers(action, source, format_code, output_directory, Event::OpenFailed),
    ensures
        action == Action::Finish(Err(ConversionError::Open)),
        !(action is WriteOutput),
{
}

/// Only a source that was read can lead to a write, and only where its
/// conversion gives a file: the write goes to the path of that file.
pub proof fn lemma_write_goes_to_converted_path(
    action: Action,
    source: Seq<char>,
    format_code: Seq<char>,
    output_directory: Seq<char>,
    event: Event,
)
    requires
        answers(action, source, format_code, output_directory, event),
        action is WriteOutput,
    ensures
        event matches Event::SourceRead(bytes) && conversion_outcome(
            source,
            bytes@,
            format_code,
            output_directory,
        ) == Ok::<Seq<char>, ConversionError>(action->WriteOutput_0.path@),
{
}

/// A source that was read and converts is always answered with a write.
pub proof fn lemma_converted_source_is_written(
    action: Action,
    source: Seq<char>,
    source_bytes: Vec<u8>,
    format_code: Seq<char>,
    output_directory: Seq<char>,
)
    requires
        answers(action, source, format_code, output_directory, Event::SourceRead(source_bytes)),
        conversion_outcome(source, source_bytes@, format_code, output_directory).is_ok(),
    ensures
        action is WriteOutput,
{
}

} // verus!
