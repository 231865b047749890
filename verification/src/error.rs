//! What can go wrong while metadata is embedded.

use vstd::prelude::*;

verus! {

/// A container that is not laid out as its format asks.
#[derive(Debug, Clone, Copy, PartialEq, Eq, Structural)]
pub enum FormatError {
    /// The buffer does not begin with the FLAC stream marker.
    NotFlac,
    /// The metadata ends before a block marked as the last one was seen.
    UnexpectedEnd,
    /// A header announces more bytes than the buffer holds.
    Truncated,
}

/// Why a buffer was left without its new metadata. The buffer is unchanged
/// whenever one of these is returned.
#[derive(Debug, Clone, Copy, PartialEq, Eq, Structural)]
pub enum TagError {
    /// The audio container is malformed.
    Format(FormatError),
    /// The metadata is too large for the container's size fields.
    TooLarge,
    /// The encoder of the tag library reported a failure. The taggers of
    /// this crate hand it nothing that it refuses, so they never answer with
    /// this.
    Encoder,
}

impl FormatError {
    /// A line for the log.
    pub fn message(&self) -> (text: String)
        ensures
            text@ == (match *self {
                FormatError::NotFlac => "Not a valid FLAC file"@,
                FormatError::UnexpectedEnd => "Unexpected end of FLAC metadata"@,
                FormatError::Truncated => "Metadata runs past the end of the file"@,
            }),
    {
        match self {
            FormatError::NotFlac => "Not a valid FLAC file".to_owned(),
            FormatError::UnexpectedEnd => "Unexpected end of FLAC metadata".to_owned(),
            FormatError::Truncated => "Metadata runs past the end of the file".to_owned(),
        }
    }
}

} // verus!
