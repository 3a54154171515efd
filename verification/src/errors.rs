//! The error taxonomy: loading errors abort a whole repository load
//! (fail-fast); execution errors are reported per call.

use vstd::prelude::*;

verus! {

/// Why a repository load failed.
#[derive(Debug)]
pub enum LoadError {
    /// The supplied path, or a package path, is not a directory.
    NotADirectory,
    /// A configuration or entrypoint file could not be read.
    IoError,
    /// The configuration text does not parse into the required shape;
    /// carries the underlying cause as text.
    MetaParseError(String),
}

/// Why one filter execution failed.
#[derive(Debug)]
pub enum RunError {
    /// The script raised a syntax or runtime error; carries the diagnostic.
    ScriptError(String),
    /// The record could not be serialized into script-visible form, or the
    /// script's return value does not fit the record shape (nor is it nil).
    MarshalError,
}

} // verus!
