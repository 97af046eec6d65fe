//! Errors reported by the decoders.
//!
//! Every error is fatal for the decode call that raised it: once a field
//! misparses, later byte offsets cannot be trusted, so no recovery is
//! attempted. Each variant carries the byte offset at which the problem was
//! detected.

use vstd::prelude::*;

verus! {

/// An error raised while decoding one of the binary formats.
#[derive(Clone, Copy, Debug, PartialEq, Eq, Structural)]
pub enum Error {
    /// The input ended before the field starting at `offset` was complete.
    UnexpectedEof { offset: usize },
    /// A string field started with a byte other than 0x00 or 0x0b.
    UnknownStringTag { offset: usize, tag: u8 },
    /// The bytes of a string field were not valid UTF-8.
    InvalidUtf8 { offset: usize },
    /// A literal marker byte did not have its expected value.
    MismatchedTag { offset: usize, expected: u8, found: u8 },
    /// A gameplay-mode byte was outside the closed set {0, 1, 2, 3}.
    UnknownGameplayMode { offset: usize, value: u8 },
    /// A ranked-status byte was outside the closed set {0, 1, 2, 4, 5, 6, 7}.
    UnknownRankedStatus { offset: usize, value: u8 },
    /// A whole-file decode finished but bytes were left over.
    TrailingBytes { offset: usize },
}

impl Error {
    /// Offset into the input at which the error was detected.
    pub fn offset(&self) -> (r: usize)
        ensures
            r == self.spec_offset(),
    {
        match self {
            Error::UnexpectedEof { offset } => *offset,
            Error::UnknownStringTag { offset, .. } => *offset,
            Error::InvalidUtf8 { offset } => *offset,
            Error::MismatchedTag { offset, .. } => *offset,
            Error::UnknownGameplayMode { offset, .. } => *offset,
            Error::UnknownRankedStatus { offset, .. } => *offset,
            Error::TrailingBytes { offset } => *offset,
        }
    }

    /// The offset carried by the variant.
    pub open spec fn spec_offset(&self) -> usize {
        match self {
            Error::UnexpectedEof { offset } => *offset,
            Error::UnknownStringTag { offset, .. } => *offset,
            Error::InvalidUtf8 { offset } => *offset,
            Error::MismatchedTag { offset, .. } => *offset,
            Error::UnknownGameplayMode { offset, .. } => *offset,
            Error::UnknownRankedStatus { offset, .. } => *offset,
            Error::TrailingBytes { offset } => *offset,
        }
    }

    /// Short description of the error kind, for presentation by callers.
    pub fn description(&self) -> &'static str {
        match self {
            Error::UnexpectedEof { .. } => "unexpected end of input",
            Error::UnknownStringTag { .. } => "unrecognized string marker",
            Error::InvalidUtf8 { .. } => "string bytes are not valid UTF-8",
            Error::MismatchedTag { .. } => "mismatched marker byte",
            Error::UnknownGameplayMode { .. } => "unrecognized gameplay mode",
            Error::UnknownRankedStatus { .. } => "unrecognized ranked status",
            Error::TrailingBytes { .. } => "input continues past the end of the structure",
        }
    }
}

} // verus!
