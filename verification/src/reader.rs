//! Primitive byte reader: bounds-checked extraction of fixed-width
//! integers from a byte slice at an arbitrary offset, parameterized by
//! byte order.
//!
//! Every multi-byte field read performed by the higher layers funnels
//! through this module, so no other component performs raw indexed byte
//! access.  Each reader checks bounds before touching any byte and fails
//! with [`ErrorKind::OutOfBounds`] instead of panicking.

use vstd::arithmetic::div_mod::lemma_fundamental_div_mod_converse;
use vstd::prelude::*;

use crate::error::ErrorKind;

verus! {

/// The convention for ordering the bytes of a multi-byte integer.
///
/// Determined once per file from a magic value; every multi-byte integer
/// in that file is then interpreted under the same order.
#[derive(Clone, Copy, Debug, PartialEq, Eq, Structural)]
pub enum ByteOrder {
    /// Least-significant byte first.
    Little,
    /// Most-significant byte first.
    Big,
}

/// The 16-bit unsigned integer encoded at `off` in `s` under order `o`.
pub open spec fn u16_at(s: Seq<u8>, o: ByteOrder, off: int) -> int
    recommends
        0 <= off,
        off + 2 <= s.len(),
{
    match o {
        ByteOrder::Little => s[off] + 0x100 * s[off + 1],
        ByteOrder::Big => s[off + 1] + 0x100 * s[off],
    }
}

/// The 32-bit unsigned integer encoded at `off` in `s` under order `o`.
pub open spec fn u32_at(s: Seq<u8>, o: ByteOrder, off: int) -> int
    recommends
        0 <= off,
        off + 4 <= s.len(),
{
    match o {
        ByteOrder::Little => s[off] + 0x100 * s[off + 1] + 0x10000 * s[off + 2]
            + 0x1000000 * s[off + 3],
        ByteOrder::Big => s[off + 3] + 0x100 * s[off + 2] + 0x10000 * s[off + 1]
            + 0x1000000 * s[off],
    }
}

/// Reads a `u16` at `off`, or fails with `OutOfBounds` when fewer than
/// two bytes remain at that offset.
pub fn read_u16(s: &[u8], o: ByteOrder, off: usize) -> (r: Result<u16, ErrorKind>)
    ensures
        match r {
            Ok(v) => off + 2 <= s@.len() && v == u16_at(s@, o, off as int),
            Err(e) => e == ErrorKind::OutOfBounds && off + 2 > s@.len(),
        },
{
    if s.len() < 2 || off > s.len() - 2 {
        return Err(ErrorKind::OutOfBounds);
    }
    let b0 = s[off];
    let b1 = s[off + 1];
    match o {
        ByteOrder::Little => Ok(b0 as u16 + 0x100 * (b1 as u16)),
        ByteOrder::Big => Ok(b1 as u16 + 0x100 * (b0 as u16)),
    }
}

/// Reads a `u32` at `off`, or fails with `OutOfBounds` when fewer than
/// four bytes remain at that offset.
pub fn read_u32(s: &[u8], o: ByteOrder, off: usize) -> (r: Result<u32, ErrorKind>)
    ensures
        match r {
            Ok(v) => off + 4 <= s@.len() && v == u32_at(s@, o, off as int),
            Err(e) => e == ErrorKind::OutOfBounds && off + 4 > s@.len(),
        },
{
    if s.len() < 4 || off > s.len() - 4 {
        return Err(ErrorKind::OutOfBounds);
    }
    let b0 = s[off] as u32;
    let b1 = s[off + 1] as u32;
    let b2 = s[off + 2] as u32;
    let b3 = s[off + 3] as u32;
    match o {
        ByteOrder::Little => Ok(b0 + 0x100 * b1 + 0x10000 * b2 + 0x1000000 * b3),
        ByteOrder::Big => Ok(b3 + 0x100 * b2 + 0x10000 * b1 + 0x1000000 * b0),
    }
}

/// The 64-bit unsigned integer encoded at `off` in `s` under order `o`.
pub open spec fn u64_at(s: Seq<u8>, o: ByteOrder, off: int) -> int
    recommends
        0 <= off,
        off + 8 <= s.len(),
{
    match o {
        ByteOrder::Little => s[off] + 0x100 * s[off + 1] + 0x10000 * s[off + 2]
            + 0x1000000 * s[off + 3] + 0x100000000 * s[off + 4] + 0x10000000000 * s[off + 5]
            + 0x1000000000000 * s[off + 6] + 0x100000000000000 * s[off + 7],
        ByteOrder::Big => s[off + 7] + 0x100 * s[off + 6] + 0x10000 * s[off + 5]
            + 0x1000000 * s[off + 4] + 0x100000000 * s[off + 3] + 0x10000000000 * s[off + 2]
            + 0x1000000000000 * s[off + 1] + 0x100000000000000 * s[off],
    }
}

/// The signed value that a 64-bit unsigned encoding `v` denotes under
/// two's complement: values with the top bit set wrap to negatives.
pub open spec fn i64_of(v: int) -> int
    recommends
        0 <= v < 0x10000000000000000,
{
    if v < 0x8000000000000000 {
        v
    } else {
        v - 0x10000000000000000
    }
}

/// Reads a `u64` at `off`, or fails with `OutOfBounds` when fewer than
/// eight bytes remain at that offset.
pub fn read_u64(s: &[u8], o: ByteOrder, off: usize) -> (r: Result<u64, ErrorKind>)
    ensures
        match r {
            Ok(v) => off + 8 <= s@.len() && v == u64_at(s@, o, off as int),
            Err(e) => e == ErrorKind::OutOfBounds && off + 8 > s@.len(),
        },
{
    if s.len() < 8 || off > s.len() - 8 {
        return Err(ErrorKind::OutOfBounds);
    }
    let b0 = s[off] as u64;
    let b1 = s[off + 1] as u64;
    let b2 = s[off + 2] as u64;
    let b3 = s[off + 3] as u64;
    let b4 = s[off + 4] as u64;
    let b5 = s[off + 5] as u64;
    let b6 = s[off + 6] as u64;
    let b7 = s[off + 7] as u64;
    match o {
        ByteOrder::Little => Ok(
            b0 + 0x100 * b1 + 0x10000 * b2 + 0x1000000 * b3 + 0x100000000 * b4 + 0x10000000000
                * b5 + 0x1000000000000 * b6 + 0x100000000000000 * b7,
        ),
        ByteOrder::Big => Ok(
            b7 + 0x100 * b6 + 0x10000 * b5 + 0x1000000 * b4 + 0x100000000 * b3 + 0x10000000000
                * b2 + 0x1000000000000 * b1 + 0x100000000000000 * b0,
        ),
    }
}

/// Reads a signed 64-bit integer at `off` under two's complement, or
/// fails with `OutOfBounds` when fewer than eight bytes remain.
pub fn read_i64(s: &[u8], o: ByteOrder, off: usize) -> (r: Result<i64, ErrorKind>)
    ensures
        match r {
            Ok(v) => off + 8 <= s@.len() && v == i64_of(u64_at(s@, o, off as int)),
            Err(e) => e == ErrorKind::OutOfBounds && off + 8 > s@.len(),
        },
{
    let raw = match read_u64(s, o, off) {
        Ok(v) => v,
        Err(e) => {
            return Err(e);
        },
    };
    if raw < 0x8000000000000000u64 {
        Ok(raw as i64)
    } else {
        Ok(((raw - 0x8000000000000000u64) as i64) + i64::MIN)
    }
}

/// Reads a `u16`, reporting a failed bounds check as `None`.
pub fn parse_u16(endianness: ByteOrder, slice: &[u8], start_index: usize) -> (r: Option<u16>)
    ensures
        match r {
            Some(v) => start_index + 2 <= slice@.len() && v == u16_at(
                slice@,
                endianness,
                start_index as int,
            ),
            None => start_index + 2 > slice@.len(),
        },
{
    match read_u16(slice, endianness, start_index) {
        Ok(v) => Some(v),
        Err(_) => None,
    }
}

/// Reads a `u32`, reporting a failed bounds check as `None`.
pub fn parse_u32(endianness: ByteOrder, slice: &[u8], start_index: usize) -> (r: Option<u32>)
    ensures
        match r {
            Some(v) => start_index + 4 <= slice@.len() && v == u32_at(
                slice@,
                endianness,
                start_index as int,
            ),
            None => start_index + 4 > slice@.len(),
        },
{
    match read_u32(slice, endianness, start_index) {
        Ok(v) => Some(v),
        Err(_) => None,
    }
}

/// Borrows the `N` elements starting at `start_index`, or reports a
/// failed bounds check as `None`.
pub fn get_array<T, const N: usize>(slice: &[T], start_index: usize) -> (r: Option<&[T]>)
    ensures
        match r {
            Some(sub) => start_index + N <= slice@.len() && sub@ == slice@.subrange(
                start_index as int,
                start_index + N,
            ),
            None => start_index + N > slice@.len(),
        },
{
    if slice.len() < N || start_index > slice.len() - N {
        return None;
    }
    Some(vstd::slice::slice_subrange(slice, start_index, start_index + N))
}

/// The 32-bit value whose byte encoding is the reversal of `v`'s.
pub open spec fn reverse_bytes_u32(v: int) -> int
    recommends
        0 <= v < 0x100000000,
{
    0x1000000 * (v % 0x100) + 0x10000 * ((v / 0x100) % 0x100) + 0x100 * ((v / 0x10000) % 0x100) + (
    v / 0x1000000) % 0x100
}

/// The bytes of a 32-bit decomposition are recovered by division and
/// remainder against powers of 256.
proof fn lemma_u32_byte_decompose(v: int, b0: int, b1: int, b2: int, b3: int)
    requires
        0 <= b0 < 0x100,
        0 <= b1 < 0x100,
        0 <= b2 < 0x100,
        0 <= b3 < 0x100,
        v == b0 + 0x100 * b1 + 0x10000 * b2 + 0x1000000 * b3,
    ensures
        v % 0x100 == b0,
        (v / 0x100) % 0x100 == b1,
        (v / 0x10000) % 0x100 == b2,
        (v / 0x1000000) % 0x100 == b3,
{
    lemma_fundamental_div_mod_converse(v, 0x100, b1 + 0x100 * b2 + 0x10000 * b3, b0);
    lemma_fundamental_div_mod_converse(b1 + 0x100 * b2 + 0x10000 * b3, 0x100, b2 + 0x100 * b3, b1);
    lemma_fundamental_div_mod_converse(v, 0x10000, b2 + 0x100 * b3, b0 + 0x100 * b1);
    lemma_fundamental_div_mod_converse(b2 + 0x100 * b3, 0x100, b3, b2);
    lemma_fundamental_div_mod_converse(v, 0x1000000, b3, b0 + 0x100 * b1 + 0x10000 * b2);
    lemma_fundamental_div_mod_converse(b3, 0x100, 0, b3);
}

/// Reading the same four bytes under the two byte orders produces values
/// that are byte-reversals of one another.
pub proof fn lemma_u32_byte_reversal(s: Seq<u8>, off: int)
    requires
        0 <= off,
        off + 4 <= s.len(),
    ensures
        u32_at(s, ByteOrder::Big, off) == reverse_bytes_u32(u32_at(s, ByteOrder::Little, off)),
{
    lemma_u32_byte_decompose(
        u32_at(s, ByteOrder::Little, off),
        s[off] as int,
        s[off + 1] as int,
        s[off + 2] as int,
        s[off + 3] as int,
    );
}

} // verus!
