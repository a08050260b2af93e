//! Section Header Block decoder: byte-order magic, format version,
//! section length, and the embedded options region.
//!
//! The Section Header Block is the mandatory first block of a section.
//! Its body starts with a 4-byte magic value that reveals the file's
//! byte order: the same four physical bytes read under the two candidate
//! orders give the two candidate constants, and exactly one candidate
//! matches for any well-formed file.

use vstd::prelude::*;

use crate::error::ErrorKind;
use crate::framer::{frame_block, spec_frame};
use crate::reader::{i64_of, read_i64, read_u16, read_u32, u16_at, u32_at, u64_at, ByteOrder};

verus! {

/// The block type code of a Section Header Block.
pub const SECTION_HEADER_TYPE: u32 = 0x0A0D0D0A;

/// The byte-order magic as it reads when the file's order is the
/// reader's little-endian assumption.
pub const MAGIC_NATIVE: u32 = 0x1A2B3C4D;

/// The byte-order magic as it reads under a little-endian assumption
/// when the file's order is big-endian.
pub const MAGIC_SWAPPED: u32 = 0x4D3C2B1A;

/// The number of fixed bytes at the start of a Section Header Block
/// body: magic, two version fields, and the section length.
pub const SECTION_FIXED_LEN: usize = 16;

/// The byte order selected by the four magic bytes at `off` in `s`, or
/// the reason none can be selected.
///
/// Reading the bytes under a little-endian assumption yields
/// `MAGIC_NATIVE` for a little-endian file and `MAGIC_SWAPPED` for a
/// big-endian one; any other value rejects the input as `InvalidMagic`.
pub open spec fn spec_detect(s: Seq<u8>, off: int) -> Result<ByteOrder, ErrorKind> {
    if off < 0 || off + 4 > s.len() {
        Err(ErrorKind::OutOfBounds)
    } else {
        let m = u32_at(s, ByteOrder::Little, off);
        if m == MAGIC_NATIVE {
            Ok(ByteOrder::Little)
        } else if m == MAGIC_SWAPPED {
            Ok(ByteOrder::Big)
        } else {
            Err(ErrorKind::InvalidMagic)
        }
    }
}

/// Detects the file's byte order from the magic bytes at `off`.
pub fn detect_byte_order(s: &[u8], off: usize) -> (r: Result<ByteOrder, ErrorKind>)
    ensures
        r == spec_detect(s@, off as int),
{
    let m = match read_u32(s, ByteOrder::Little, off) {
        Ok(v) => v,
        Err(e) => {
            return Err(e);
        },
    };
    if m == MAGIC_NATIVE {
        Ok(ByteOrder::Little)
    } else if m == MAGIC_SWAPPED {
        Ok(ByteOrder::Big)
    } else {
        Err(ErrorKind::InvalidMagic)
    }
}

/// Under the selected order, the magic bytes always read back as the
/// native magic constant, and the two orders are selected by exactly
/// the two reversed byte patterns `4d 3c 2b 1a` and `1a 2b 3c 4d`.
pub proof fn lemma_magic_detection(s: Seq<u8>, off: int)
    requires
        0 <= off,
        off + 4 <= s.len(),
    ensures
        spec_detect(s, off) == Ok::<ByteOrder, ErrorKind>(ByteOrder::Little) <==> (s[off] == 0x4d
            && s[off + 1] == 0x3c && s[off + 2] == 0x2b && s[off + 3] == 0x1a),
        spec_detect(s, off) == Ok::<ByteOrder, ErrorKind>(ByteOrder::Big) <==> (s[off] == 0x1a && s[
            off + 1] == 0x2b && s[off + 2] == 0x3c && s[off + 3] == 0x4d),
        spec_detect(s, off) matches Ok(o) ==> u32_at(s, o, off) == MAGIC_NATIVE,
        spec_detect(s, off) matches Err(e) ==> e == ErrorKind::InvalidMagic && u32_at(
            s,
            ByteOrder::Little,
            off,
        ) != MAGIC_NATIVE && u32_at(s, ByteOrder::Little, off) != MAGIC_SWAPPED,
{
}

/// The mathematical image of a decoded Section Header Block.
#[verifier::ext_equal]
pub ghost struct SectionHeaderModel {
    /// The byte order the magic selected.
    pub byte_order: ByteOrder,
    /// The major version field.
    pub major_version: int,
    /// The minor version field.
    pub minor_version: int,
    /// The declared byte extent of the section; -1 means unspecified.
    pub section_length: int,
    /// The options region: every body byte after the fixed fields.
    pub options: Seq<u8>,
}

/// What decoding a Section Header Block body yields: the structured
/// fields on success, or the reason the body is rejected.
pub open spec fn spec_decode_body(body: Seq<u8>) -> Result<SectionHeaderModel, ErrorKind> {
    if body.len() < SECTION_FIXED_LEN {
        Err(ErrorKind::Truncated)
    } else {
        match spec_detect(body, 0) {
            Err(e) => Err(e),
            Ok(o) => Ok(
                SectionHeaderModel {
                    byte_order: o,
                    major_version: u16_at(body, o, 4),
                    minor_version: u16_at(body, o, 6),
                    section_length: i64_of(u64_at(body, o, 8)),
                    options: body.subrange(SECTION_FIXED_LEN as int, body.len() as int),
                },
            ),
        }
    }
}

/// A parsed Section Header Block.  All variable-length content borrows
/// from the caller's buffer.
#[derive(Clone, Copy, Debug, PartialEq, Eq)]
pub struct SectionHeaderBlock<'a> {
    /// The byte order the magic selected, governing every multi-byte
    /// integer of the section.
    pub byte_order: ByteOrder,
    /// The major version of the format.
    pub major_version: u16,
    /// The minor version of the format.
    pub minor_version: u16,
    /// The declared byte extent of the section; -1 means "unspecified,
    /// read until the next section header or the end of the file".
    pub section_length: i64,
    /// The options region of the body, to be handed to the option list
    /// parser.
    pub options: &'a [u8],
}

impl<'a> SectionHeaderBlock<'a> {
    /// The block as its mathematical image.
    pub open spec fn model(self) -> SectionHeaderModel {
        SectionHeaderModel {
            byte_order: self.byte_order,
            major_version: self.major_version as int,
            minor_version: self.minor_version as int,
            section_length: self.section_length as int,
            options: self.options@,
        }
    }

    /// Decodes a framed block's body as a Section Header Block.
    ///
    /// Fails with `Truncated` when the body is shorter than the 16-byte
    /// fixed-field prefix, and with `InvalidMagic` when the magic bytes
    /// select no byte order.
    pub fn decode_body(body: &'a [u8]) -> (r: Result<SectionHeaderBlock<'a>, ErrorKind>)
        ensures
            match r {
                Ok(b) => spec_decode_body(body@) == Ok::<SectionHeaderModel, ErrorKind>(b.model()),
                Err(e) => spec_decode_body(body@) == Err::<SectionHeaderModel, ErrorKind>(e),
            },
    {
        if body.len() < SECTION_FIXED_LEN {
            return Err(ErrorKind::Truncated);
        }
        let byte_order = match detect_byte_order(body, 0) {
            Ok(o) => o,
            Err(e) => {
                return Err(e);
            },
        };
        let major_version = match read_u16(body, byte_order, 4) {
            Ok(v) => v,
            Err(e) => {
                return Err(e);
            },
        };
        let minor_version = match read_u16(body, byte_order, 6) {
            Ok(v) => v,
            Err(e) => {
                return Err(e);
            },
        };
        let section_length = match read_i64(body, byte_order, 8) {
            Ok(v) => v,
            Err(e) => {
                return Err(e);
            },
        };
        let options = vstd::slice::slice_subrange(body, SECTION_FIXED_LEN, body.len());
        Ok(SectionHeaderBlock { byte_order, major_version, minor_version, section_length, options })
    }

    /// Decodes the first block of a capture as a Section Header Block.
    ///
    /// `data` starts at the block boundary: the byte order is detected
    /// from the magic bytes at offset 8 (the start of the body), the
    /// block is framed under that order, and the body is decoded.  The
    /// block's type code is not examined here; a caller that needs it
    /// reads it from the framer.
    pub fn parse(data: &'a [u8]) -> (r: Result<SectionHeaderBlock<'a>, ErrorKind>)
        ensures
            match r {
                Ok(b) => spec_parse(data@) == Ok::<SectionHeaderModel, ErrorKind>(b.model()),
                Err(e) => spec_parse(data@) == Err::<SectionHeaderModel, ErrorKind>(e),
            },
    {
        if data.len() < 12 {
            return Err(ErrorKind::Truncated);
        }
        let byte_order = match detect_byte_order(data, 8) {
            Ok(o) => o,
            Err(e) => {
                return Err(e);
            },
        };
        let block = match frame_block(data, byte_order) {
            Ok(b) => b,
            Err(e) => {
                return Err(e);
            },
        };
        SectionHeaderBlock::decode_body(block.body)
    }
}

/// What decoding the first block of `data` yields: the order is read
/// from the magic at offset 8, the block is framed under it, and its
/// body is decoded.
pub open spec fn spec_parse(data: Seq<u8>) -> Result<SectionHeaderModel, ErrorKind> {
    if data.len() < 12 {
        Err(ErrorKind::Truncated)
    } else {
        match spec_detect(data, 8) {
            Err(e) => Err(e),
            Ok(o) => match spec_frame(data, o) {
                Err(e) => Err(e),
                Ok((_block_type, body)) => spec_decode_body(body),
            },
        }
    }
}

} // verus!
