//! The path classifier: which paths lie in the reserved configuration
//! directory, which name a note, and the names taken from a path.
//!
//! Paths are text. How a path falls into components is decided by
//! `std::path`, for the platform the crate is built for; its answers are
//! named here and the rules on top of them are proved.

use crate::error::Error;
use std::path::Path;
use vstd::prelude::*;
use vstd::string::StringExecFns;
use vstd::utf8::{decode_utf8, valid_utf8};

verus! {

/// The directory, directly under the workspace, that holds the editor's own
/// configuration. Nothing in it is a note.
pub const PLUGIN_DIR: &'static str = ".obsidian";

/// The extension that marks a file as a note.
pub const NOTE_EXTENSION: &'static str = "md";

/// The final component of a path without its extension, as `Path::file_stem` gives it.
pub uninterp spec fn path_file_stem(path: Seq<char>) -> Option<Seq<char>>;

/// The final component of a path, as `Path::file_name` gives it.
pub uninterp spec fn path_file_name(path: Seq<char>) -> Option<Seq<char>>;

/// A path without its final component, as `Path::parent` gives it.
pub uninterp spec fn path_parent(path: Seq<char>) -> Option<Seq<char>>;

/// The extension of a path's final component, as `Path::extension` gives it.
pub uninterp spec fn path_extension(path: Seq<char>) -> Option<Seq<char>>;

/// The path `name` adjoined to `base`, as `Path::join` gives it.
pub uninterp spec fn path_join(base: Seq<char>, name: Seq<char>) -> Seq<char>;

/// Whether the components of `base` begin those of `path`, as `Path::starts_with` decides.
pub uninterp spec fn path_starts_with(path: Seq<char>, base: Seq<char>) -> bool;

/// Whether two texts are the same path, as `==` on `Path` decides.
pub uninterp spec fn path_same(left: Seq<char>, right: Seq<char>) -> bool;

/// Calls `Path::file_stem`.
///
/// Trusted: the answer depends on the path's text alone. A stem of a path
/// that is text is text itself, so turning it into a `String` loses nothing.
#[verifier::external_body]
fn stem_of(path: &str) -> (stem: Option<String>)
    ensures
        stem.deep_view() == path_file_stem(path@),
{
    Path::new(path).file_stem().map(|stem| stem.to_string_lossy().into_owned())
}

/// Calls `Path::file_name`.
///
/// Trusted: the answer depends on the path's text alone.
#[verifier::external_body]
pub(crate) fn name_of(path: &str) -> (name: Option<String>)
    ensures
        name.deep_view() == path_file_name(path@),
{
    Path::new(path).file_name().map(|name| name.to_string_lossy().into_owned())
}

/// Calls `Path::parent`.
///
/// Trusted: the answer depends on the path's text alone.
#[verifier::external_body]
fn parent_of(path: &str) -> (parent: Option<String>)
    ensures
        parent.deep_view() == path_parent(path@),
{
    Path::new(path).parent().map(|parent| parent.to_string_lossy().into_owned())
}

/// Calls `Path::extension`.
///
/// Trusted: the answer depends on the path's text alone.
#[verifier::external_body]
fn extension_of(path: &str) -> (extension: Option<String>)
    ensures
        extension.deep_view() == path_extension(path@),
{
    Path::new(path).extension().map(|extension| extension.to_string_lossy().into_owned())
}

/// Calls `Path::join`.
///
/// Trusted: the answer depends on the two texts alone.
#[verifier::external_body]
fn join(base: &str, name: &str) -> (joined: String)
    ensures
        joined@ == path_join(base@, name@),
{
    Path::new(base).join(name).to_string_lossy().into_owned()
}

/// Calls `Path::starts_with`.
///
/// Trusted: the answer depends on the two texts alone.
#[verifier::external_body]
fn starts_with(path: &str, base: &str) -> (begins: bool)
    ensures
        begins == path_starts_with(path@, base@),
{
    Path::new(path).starts_with(base)
}

/// Compares two paths with `==` on `Path`.
///
/// Trusted: the answer depends on the two texts alone.
#[verifier::external_body]
fn same_path(left: &str, right: &str) -> (same: bool)
    ensures
        same == path_same(left@, right@),
{
    Path::new(left) == Path::new(right)
}

/// Calls `std::str::from_utf8`.
///
/// Trusted: it succeeds exactly on valid UTF-8 and then gives the text
/// that the bytes encode.
#[verifier::external_body]
fn text_of(bytes: &[u8]) -> (text: Option<String>)
    ensures
        text.is_some() == valid_utf8(bytes@),
        text matches Some(t) ==> t@ == decode_utf8(bytes@),
{
    std::str::from_utf8(bytes).ok().map(|text| text.to_string())
}

/// Whether `path` is the reserved configuration directory of `workspace`
/// or lies under it.
pub open spec fn is_plugin(path: Seq<char>, workspace: Seq<char>) -> bool {
    path_starts_with(path, path_join(workspace, PLUGIN_DIR@))
}

/// Whether `path` has the form of a note of `workspace`: a regular file,
/// not directly inside the workspace root, with the note extension.
pub open spec fn is_markdown(path: Seq<char>, workspace: Seq<char>, is_file: bool) -> bool {
    &&& is_file
    &&& path_parent(path) matches Some(parent)
    &&& !path_same(parent, workspace)
    &&& path_extension(path) == Some(NOTE_EXTENSION@)
}

/// Whether `path` names a note of `workspace`: a regular file with the
/// note extension that lies neither directly under the workspace root nor
/// in the reserved configuration directory.
pub open spec fn is_note(path: Seq<char>, workspace: Seq<char>, is_file: bool) -> bool {
    !is_plugin(path, workspace) && is_markdown(path, workspace, is_file)
}

/// The name of a note: the final component of its path without the
/// extension. Fails with `Error::FileStem` exactly when the path has no
/// such component.
pub fn file_stem(path: &str) -> (stem: Result<String, Error>)
    ensures
        match stem {
            Ok(name) => path_file_stem(path@) == Some(name@),
            Err(e) => path_file_stem(path@).is_none() && e == Error::FileStem,
        },
{
    match stem_of(path) {
        Some(name) => Ok(name),
        None => Err(Error::FileStem),
    }
}

/// The final component of a path, extension and all: the name of a
/// directory. Fails with `Error::FileStem` exactly when the path has no
/// final component.
pub fn file_name(path: &str) -> (name: Result<String, Error>)
    ensures
        match name {
            Ok(text) => path_file_name(path@) == Some(text@),
            Err(e) => path_file_name(path@).is_none() && e == Error::FileStem,
        },
{
    match name_of(path) {
        Some(text) => Ok(text),
        None => Err(Error::FileStem),
    }
}

/// The text of a path given as the bytes the operating system holds.
/// Fails with `Error::InvalidPath` exactly when the bytes are not valid UTF-8.
pub fn path_to_string(path: &[u8]) -> (text: Result<String, Error>)
    ensures
        match text {
            Ok(t) => valid_utf8(path@) && t@ == decode_utf8(path@),
            Err(e) => !valid_utf8(path@) && e == Error::InvalidPath,
        },
{
    match text_of(path) {
        Some(t) => Ok(t),
        None => Err(Error::InvalidPath),
    }
}

/// Whether `path` is the reserved configuration directory of `workspace`
/// or lies under it.
pub fn is_plugin_path(path: &str, workspace: &str) -> (excluded: bool)
    ensures
        excluded == is_plugin(path@, workspace@),
{
    let plugin_path = join(workspace, PLUGIN_DIR);
    starts_with(path, plugin_path.as_str())
}

/// Whether `path` has the form of a note of `workspace`: a regular file,
/// not directly inside the workspace root, with the note extension.
/// `is_file` says whether the path was found to be a regular file.
pub fn is_markdown_path(path: &str, workspace: &str, is_file: bool) -> (eligible: bool)
    ensures
        eligible == is_markdown(path@, workspace@, is_file),
{
    if is_file {
        if let Some(parent) = parent_of(path) {
            if !same_path(parent.as_str(), workspace) {
                if let Some(extension) = extension_of(path) {
                    return extension == String::from_str(NOTE_EXTENSION);
                }
            }
        }
    }
    false
}

/// Whether `path` names a note of `workspace`: it has the form of one and
/// lies outside the reserved configuration directory.
pub fn is_note_path(path: &str, workspace: &str, is_file: bool) -> (eligible: bool)
    ensures
        eligible == is_note(path@, workspace@, is_file),
{
    !is_plugin_path(path, workspace) && is_markdown_path(path, workspace, is_file)
}

} // verus!
