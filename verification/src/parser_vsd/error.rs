//! What can stop the reading of a document.

use vstd::prelude::*;

verus! {

/// Why a document, or a branch of it, could not be read.
#[derive(Clone, Copy, Debug, PartialEq, Eq, Structural)]
pub enum ParseError {
    /// A chunk ended before the header or the pointers that it announces.
    Io,
    /// A directory places its header before the start of its chunk.
    Seek,
    /// Directories are nested more deeply than the parser follows.
    TooDeep,
    /// The document does not start with the Visio signature.
    Signature,
    /// The document has a version that the parser does not read.
    Version,
}

impl ParseError {
    /// The message that goes with the error.
    pub fn message(&self) -> (text: &'static str)
        ensures
            text@ == match *self {
                ParseError::Io => "unexpected end of chunk"@,
                ParseError::Seek => "directory header before the start of its chunk"@,
                ParseError::TooDeep => "directories nested too deeply"@,
                ParseError::Signature => "This is not vsd file"@,
                ParseError::Version => "Supported only version 11"@,
            },
    {
        match self {
            ParseError::Io => "unexpected end of chunk",
            ParseError::Seek => "directory header before the start of its chunk",
            ParseError::TooDeep => "directories nested too deeply",
            ParseError::Signature => "This is not vsd file",
            ParseError::Version => "Supported only version 11",
        }
    }
}

} // verus!
