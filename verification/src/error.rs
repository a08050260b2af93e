//! Error taxonomy shared by every decoding component.
//!
//! All variants describe recoverable conditions surfaced to the caller;
//! no component panics on malformed input.

use vstd::prelude::*;

verus! {

/// The ways a decode step can fail on untrusted input.
#[derive(Clone, Copy, Debug, PartialEq, Eq, Structural)]
pub enum ErrorKind {
    /// A primitive read's offset plus width exceeds the slice length.
    OutOfBounds,
    /// Fewer bytes remain than a fixed-size field or declared region requires.
    Truncated,
    /// A declared length is internally inconsistent: smaller than the minimum
    /// overhead, or extending past the end of the available bytes.
    InvalidLength,
    /// A block's leading and trailing length fields disagree.
    LengthMismatch,
    /// The byte-order magic matches neither candidate value.
    InvalidMagic,
}

} // verus!
