//! Paths as text, taken apart and put together by the standard library.
//!
//! The standard library decides how a path is parsed on the platform the
//! crate is built for. Its answers are named here and believed as they come;
//! the rules that pick among them are proved.

use vstd::prelude::*;
use std::path::{Path, PathBuf};
use crate::error::{ConversionError, MissingPart};
use crate::format::TargetFormat;

verus! {

/// The stem that `Path::file_stem` finds in `path`: its file name without the
/// last extension, or `None` where the path names no file.
pub uninterp spec fn path_file_stem(path: Seq<char>) -> Option<Seq<char>>;

/// What `Path::parent` gives for `path`: the path without its last component,
/// or `None` where the path is empty or ends in a root.
pub uninterp spec fn path_parent(path: Seq<char>) -> Option<Seq<char>>;

/// The path that `PathBuf::push` makes of `base` when `component` is pushed
/// onto it.
pub uninterp spec fn path_pushed(base: Seq<char>, component: Seq<char>) -> Seq<char>;

/// The text that an optional string holds.
pub open spec fn text_of(part: Option<String>) -> Option<Seq<char>> {
    match part {
        Some(text) => Some(text@),
        None => None,
    }
}

/// Calls `Path::file_stem` on `path` and hands the stem back as text.
///
/// Believed: the result is what the standard library finds, under the name
/// `path_file_stem`. Nothing is claimed about which part of the path it is.
#[verifier::external_body]
fn file_stem_of(path: &str) -> (stem: Option<String>)
    ensures
        text_of(stem) == path_file_stem(path@),
{
    let stem = Path::new(path).file_stem()?;
    Some(stem.to_str()?.to_owned())
}

/// Calls `Path::parent` on `path` and hands the parent back as text.
///
/// Believed: the result is what the standard library finds, under the name
/// `path_parent`.
#[verifier::external_body]
fn parent_of(path: &str) -> (parent: Option<String>)
    ensures
        text_of(parent) == path_parent(path@),
{
    let parent = Path::new(path).parent()?;
    Some(parent.to_str()?.to_owned())
}

/// Calls `PathBuf::push` on a path made of `base`, with `component`.
///
/// Believed: the result is the pushed path, under the name `path_pushed`.
/// Both arguments are text, so turning the path back into text loses nothing.
#[verifier::external_body]
fn push_component(base: &str, component: &str) -> (joined: String)
    ensures
        joined@ == path_pushed(base@, component@),
{
    let mut path = PathBuf::from(base);
    path.push(component);
    path.to_string_lossy().into_owned()
}

/// The name of the output file: the stem, a dot, and the format's code.
pub open spec fn file_name_text(stem: Seq<char>, format: TargetFormat) -> Seq<char> {
    stem + seq!['.'] + format.code_text()
}

/// Builds the name of the output file for a source whose stem is `stem`.
/// The whole stem is kept, dots and all.
pub fn output_file_name(stem: &str, format: TargetFormat) -> (name: String)
    ensures
        name@ == file_name_text(stem@, format),
{
    let mut name = stem.to_owned();
    name.append(".");
    name.append(format.code());
    proof {
        reveal_strlit(".");
        assert("."@ =~= seq!['.']);
    }
    name
}

/// The result of looking for a part of a path: the part, or the error that
/// names the part as missing.
pub open spec fn part_or_missing(part: Option<Seq<char>>, missing: MissingPart) -> Result<
    Seq<char>,
    ConversionError,
> {
    match part {
        Some(text) => Ok(text),
        None => Err(ConversionError::PathParse(missing)),
    }
}

/// The directory that the output goes to: the chosen directory where one is
/// given, else the parent of the source.
pub open spec fn base_directory_text(
    source_parent: Option<Seq<char>>,
    output_directory: Seq<char>,
) -> Result<Seq<char>, ConversionError> {
    if output_directory.len() == 0 {
        part_or_missing(source_parent, MissingPart::ParentDirectory)
    } else {
        Ok(output_directory)
    }
}

/// The path of the output file: the base directory with the file name
/// pushed onto it.
pub open spec fn output_path_text(
    source: Seq<char>,
    stem: Seq<char>,
    format: TargetFormat,
    output_directory: Seq<char>,
) -> Result<Seq<char>, ConversionError> {
    match base_directory_text(path_parent(source), output_directory) {
        Ok(base) => Ok(path_pushed(base, file_name_text(stem, format))),
        Err(e) => Err(e),
    }
}

/// Whether `result` holds the text or the error that `expected` holds.
pub open spec fn text_result_is(
    result: Result<String, ConversionError>,
    expected: Result<Seq<char>, ConversionError>,
) -> bool {
    match expected {
        Ok(text) => result matches Ok(s) && s@ == text,
        Err(e) => result == Err::<String, ConversionError>(e),
    }
}

/// The file stem of `source_path`, or the error that says it has none.
pub fn source_stem(source_path: &str) -> (result: Result<String, ConversionError>)
    ensures
        text_result_is(
            result,
            part_or_missing(path_file_stem(source_path@), MissingPart::FileStem),
        ),
{
    match file_stem_of(source_path) {
        Some(stem) => Ok(stem),
        None => Err(ConversionError::PathParse(MissingPart::FileStem)),
    }
}

/// Picks the directory to write into, given the parent of the source path
/// as it was found. A chosen directory wins; the parent is the fallback.
pub fn base_directory(source_parent: Option<String>, output_directory: &str) -> (result: Result<
    String,
    ConversionError,
>)
    ensures
        text_result_is(
            result,
            base_directory_text(text_of(source_parent), output_directory@),
        ),
{
    if output_directory.is_empty() {
        match source_parent {
            Some(parent) => Ok(parent),
            None => Err(ConversionError::PathParse(MissingPart::ParentDirectory)),
        }
    } else {
        Ok(output_directory.to_owned())
    }
}

/// Builds the path of the output file for `source_path`, whose stem is `stem`.
pub fn output_path(
    source_path: &str,
    stem: &str,
    format: TargetFormat,
    output_directory: &str,
) -> (result: Result<String, ConversionError>)
    ensures
        text_result_is(
            result,
            output_path_text(source_path@, stem@, format, output_directory@),
        ),
{
    let source_parent = if output_directory.is_empty() {
        parent_of(source_path)
    } else {
        None
    };
    match base_directory(source_parent, output_directory) {
        Ok(base) => {
            let name = output_file_name(stem, format);
            Ok(push_component(base.as_str(), name.as_str()))
        },
        Err(e) => Err(e),
    }
}

/// With no directory chosen, the output goes to the parent of the source;
/// a source without a parent is an error.
pub proof fn lemma_empty_directory_means_source_parent(
    source: Seq<char>,
    stem: Seq<char>,
    format: TargetFormat,
)
    ensures
        output_path_text(source, stem, format, Seq::<char>::empty()) == match path_parent(source) {
            Some(parent) => Ok::<Seq<char>, ConversionError>(
                path_pushed(parent, file_name_text(stem, format)),
            ),
            None => Err(ConversionError::PathParse(MissingPart::ParentDirectory)),
        },
{
}

/// With a directory chosen, the output goes there, whatever the source path
/// is: only its stem counts.
pub proof fn lemma_chosen_directory_ignores_source(
    source: Seq<char>,
    other_source: Seq<char>,
    stem: Seq<char>,
    format: TargetFormat,
    output_directory: Seq<char>,
)
    requires
        output_directory.len() > 0,
    ensures
        output_path_text(source, stem, format, output_directory) == Ok::<
            Seq<char>,
            ConversionError,
        >(path_pushed(output_directory, file_name_text(stem, format))),
        output_path_text(source, stem, format, output_directory) == output_path_text(
            other_source,
            stem,
            format,
            output_directory,
        ),
{
}

} // verus!
