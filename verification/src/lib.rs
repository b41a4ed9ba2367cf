//! Indexing and search over a workspace of notes: a root directory whose
//! sub-directories are groups, each holding note files.
//!
//! The library works on plain values. Its caller walks the directories and
//! reads the files; every decision on what was found is taken here:
//!
//! - `path` tells which paths lie in the reserved configuration directory
//!   and which name a note;
//! - `group` gives a group its canonical name and its numeric id;
//! - `metadata` resolves a note's times from its header and the file system;
//! - `note` lists the notes of a workspace, and its groups that hold a note;
//! - `pattern` and `search` find the notes whose name or content matches a
//!   regular expression;
//! - `note_laws` and `search_laws` state what holds of every listing and
//!   of every search, and `gather` how results are put together.

pub mod error;
pub mod gather;
pub mod group;
pub mod metadata;
pub mod note;
pub mod note_laws;
pub mod path;
pub mod pattern;
pub mod search;
pub mod search_laws;
