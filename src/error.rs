//! The errors of the image helpers.

use vstd::prelude::*;
use crate::dimensions::FormatFamily;

verus! {

/// A recognised named argument.
#[derive(Clone, Copy, Debug, PartialEq, Eq, Structural)]
pub enum ArgKey {
    Path,
    Width,
    Height,
    Op,
    Format,
    Quality,
    AllowMissing,
}

/// Why a call failed.
#[derive(Clone, Debug)]
pub enum ImageFnError {
    /// A required argument was not given.
    MissingArgument(ArgKey),
    /// An argument was given with a value of the wrong type.
    InvalidArgumentType(ArgKey),
    /// An argument that the call does not know was given; holds its name.
    UnknownArgument(String),
    /// An argument was given out of its allowed range.
    InvalidRange(ArgKey),
    /// The logical path starts with a path separator.
    AbsolutePath,
    /// No candidate location of the logical path exists.
    FileNotFound,
    /// The file could not be decoded; holds the format family it was read
    /// as, the file and the decoder's message.
    UnsupportedOrCorruptImage(FormatFamily, String, String),
    /// An SVG document has neither both explicit sizes nor a view box.
    InvalidVectorDimensions,
}

} // verus!
