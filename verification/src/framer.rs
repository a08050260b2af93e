//! Block framer: validates and delimits one generic block of the
//! capture container.
//!
//! A block is a 32-bit type code, a 32-bit total length that covers the
//! whole block, a body of `length - 12` bytes, and a trailing repetition
//! of the length that must equal the leading one.  Every length is
//! untrusted, so the framer checks each derived offset before use.

use vstd::prelude::*;

use crate::error::ErrorKind;
use crate::reader::{read_u32, u32_at, ByteOrder};

verus! {

/// The smallest legal block: a 4-byte type, a 4-byte length, a zero-byte
/// body and a 4-byte trailing length.
pub const MIN_BLOCK_LEN: u32 = 12;

/// One validated block: its type code, its body borrowed from the input,
/// and the number of input bytes the block occupies.
#[derive(Clone, Copy, Debug, PartialEq, Eq)]
pub struct Block<'a> {
    /// The 32-bit block type code read at offset 0.
    pub block_type: u32,
    /// The block body: the bytes between the leading length field and the
    /// trailing length field, borrowed from the caller's buffer.
    pub body: &'a [u8],
    /// The total number of bytes this block occupies, equal to the
    /// leading length field.
    pub consumed: usize,
}

/// What framing a byte sequence under order `o` yields: the type code and
/// body on success, or the reason the input is rejected.
pub open spec fn spec_frame(s: Seq<u8>, o: ByteOrder) -> Result<(int, Seq<u8>), ErrorKind> {
    if s.len() < 12 {
        Err(ErrorKind::Truncated)
    } else {
        let len = u32_at(s, o, 4);
        if len < 12 || len > s.len() {
            Err(ErrorKind::InvalidLength)
        } else if u32_at(s, o, len - 4) != len {
            Err(ErrorKind::LengthMismatch)
        } else {
            Ok((u32_at(s, o, 0), s.subrange(8, len - 4)))
        }
    }
}

/// Frames the block starting at the beginning of `s` under order `o`.
///
/// Fails with `Truncated` when fewer than the 12-byte minimum remain,
/// with `InvalidLength` when the leading length is below the minimum or
/// extends past the end of `s`, and with `LengthMismatch` when the
/// trailing length repeat differs from the leading length.
pub fn frame_block<'a>(s: &'a [u8], o: ByteOrder) -> (r: Result<Block<'a>, ErrorKind>)
    ensures
        match r {
            Ok(b) => {
                &&& spec_frame(s@, o) == Ok::<(int, Seq<u8>), ErrorKind>(
                    (b.block_type as int, b.body@),
                )
                &&& b.consumed == u32_at(s@, o, 4)
                &&& b.body@.len() == b.consumed - 12
            },
            Err(e) => spec_frame(s@, o) == Err::<(int, Seq<u8>), ErrorKind>(e),
        },
{
    if s.len() < 12 {
        return Err(ErrorKind::Truncated);
    }
    let block_type = match read_u32(s, o, 0) {
        Ok(v) => v,
        Err(e) => {
            return Err(e);
        },
    };
    let leading = match read_u32(s, o, 4) {
        Ok(v) => v,
        Err(e) => {
            return Err(e);
        },
    };
    let total = leading as usize;
    if leading < MIN_BLOCK_LEN || total > s.len() {
        return Err(ErrorKind::InvalidLength);
    }
    let trailing = match read_u32(s, o, total - 4) {
        Ok(v) => v,
        Err(e) => {
            return Err(e);
        },
    };
    if trailing != leading {
        return Err(ErrorKind::LengthMismatch);
    }
    let body = vstd::slice::slice_subrange(s, 8, total - 4);
    Ok(Block { block_type, body, consumed: total })
}

/// Any input shorter than the 12-byte minimum frame is rejected as
/// `Truncated`, whatever its content.
pub proof fn lemma_frame_short_input(s: Seq<u8>, o: ByteOrder)
    requires
        s.len() < 12,
    ensures
        spec_frame(s, o) == Err::<(int, Seq<u8>), ErrorKind>(ErrorKind::Truncated),
{
}

/// Round trip over a well-formed frame: when the leading length `len` is
/// in bounds, framing recovers the type code and a body of `len - 12`
/// bytes exactly when the trailing length equals `len`; any other
/// trailing value is rejected as `LengthMismatch`.
pub proof fn lemma_frame_round_trip(s: Seq<u8>, o: ByteOrder)
    requires
        s.len() >= 12,
        12 <= u32_at(s, o, 4) <= s.len(),
    ensures
        u32_at(s, o, u32_at(s, o, 4) - 4) == u32_at(s, o, 4) ==> spec_frame(s, o) == Ok::<
            (int, Seq<u8>),
            ErrorKind,
        >((u32_at(s, o, 0), s.subrange(8, u32_at(s, o, 4) - 4))),
        u32_at(s, o, u32_at(s, o, 4) - 4) == u32_at(s, o, 4) ==> s.subrange(
            8,
            u32_at(s, o, 4) - 4,
        ).len() == u32_at(s, o, 4) - 12,
        u32_at(s, o, u32_at(s, o, 4) - 4) != u32_at(s, o, 4) ==> spec_frame(s, o) == Err::<
            (int, Seq<u8>),
            ErrorKind,
        >(ErrorKind::LengthMismatch),
{
}

} // verus!
