//! Little-endian primitive readers over a byte buffer and a cursor.
//!
//! Every reader takes the whole input together with the position at which
//! its field starts and returns the decoded value with the position of the
//! first byte after the field. Each is specified against a `sd_*` spec
//! function that gives the mathematical reading of the same bytes; a reader
//! returns exactly what its spec function says, error case included.
//!
//! 32-bit and 64-bit floating-point fields of the file formats are carried
//! as their IEEE 754 bit patterns in `u32` / `u64` values, so the same two
//! readers serve for them.

use vstd::prelude::*;

use crate::error::Error;

verus! {

/// The byte at `pos`, or an end-of-input error at `pos`.
pub open spec fn sd_u8(s: Seq<u8>, pos: int) -> Result<(u8, int), Error> {
    if 0 <= pos && pos + 1 <= s.len() {
        Ok((s[pos], pos + 1))
    } else {
        Err(Error::UnexpectedEof { offset: pos as usize })
    }
}

/// The little-endian `u16` starting at `pos`.
pub open spec fn sd_u16(s: Seq<u8>, pos: int) -> Result<(u16, int), Error> {
    if 0 <= pos && pos + 2 <= s.len() {
        Ok(((s[pos] as u16) | ((s[pos + 1] as u16) << 8), pos + 2))
    } else {
        Err(Error::UnexpectedEof { offset: pos as usize })
    }
}

/// The little-endian `u32` starting at `pos`.
pub open spec fn sd_u32(s: Seq<u8>, pos: int) -> Result<(u32, int), Error> {
    if 0 <= pos && pos + 4 <= s.len() {
        Ok(
            (
                (s[pos] as u32) | ((s[pos + 1] as u32) << 8) | ((s[pos + 2] as u32) << 16) | ((s[pos
                    + 3] as u32) << 24),
                pos + 4,
            ),
        )
    } else {
        Err(Error::UnexpectedEof { offset: pos as usize })
    }
}

/// The little-endian `u64` starting at `pos`.
pub open spec fn sd_u64(s: Seq<u8>, pos: int) -> Result<(u64, int), Error> {
    if 0 <= pos && pos + 8 <= s.len() {
        Ok(
            (
                (s[pos] as u64) | ((s[pos + 1] as u64) << 8) | ((s[pos + 2] as u64) << 16) | ((s[pos
                    + 3] as u64) << 24) | ((s[pos + 4] as u64) << 32) | ((s[pos + 5] as u64) << 40)
                    | ((s[pos + 6] as u64) << 48) | ((s[pos + 7] as u64) << 56),
                pos + 8,
            ),
        )
    } else {
        Err(Error::UnexpectedEof { offset: pos as usize })
    }
}

/// The `n` raw bytes starting at `pos`.
pub open spec fn sd_bytes(s: Seq<u8>, pos: int, n: int) -> Result<(Seq<u8>, int), Error> {
    if 0 <= pos && 0 <= n && pos + n <= s.len() {
        Ok((s.subrange(pos, pos + n), pos + n))
    } else {
        Err(Error::UnexpectedEof { offset: pos as usize })
    }
}

/// Reads one byte.
pub fn read_u8(input: &[u8], pos: usize) -> (r: Result<(u8, usize), Error>)
    ensures
        match sd_u8(input@, pos as int) {
            Ok(o) => r matches Ok(v) && v.0 == o.0 && v.1 as int == o.1,
            Err(e) => r matches Err(e2) && e2 == e,
        },
        r matches Ok(v) ==> pos <= v.1 && v.1 <= input@.len(),
{
    if pos < input.len() {
        Ok((*vstd::slice::slice_index_get(input, pos), pos + 1))
    } else {
        Err(Error::UnexpectedEof { offset: pos })
    }
}

/// Reads a little-endian `u16`.
pub fn read_u16(input: &[u8], pos: usize) -> (r: Result<(u16, usize), Error>)
    ensures
        match sd_u16(input@, pos as int) {
            Ok(o) => r matches Ok(v) && v.0 == o.0 && v.1 as int == o.1,
            Err(e) => r matches Err(e2) && e2 == e,
        },
        r matches Ok(v) ==> pos <= v.1 && v.1 <= input@.len(),
{
    if pos < input.len() && input.len() - pos >= 2 {
        let b0 = *vstd::slice::slice_index_get(input, pos);
        let b1 = *vstd::slice::slice_index_get(input, pos + 1);
        Ok(((b0 as u16) | ((b1 as u16) << 8), pos + 2))
    } else {
        Err(Error::UnexpectedEof { offset: pos })
    }
}

/// Reads a little-endian `u32`.
pub fn read_u32(input: &[u8], pos: usize) -> (r: Result<(u32, usize), Error>)
    ensures
        match sd_u32(input@, pos as int) {
            Ok(o) => r matches Ok(v) && v.0 == o.0 && v.1 as int == o.1,
            Err(e) => r matches Err(e2) && e2 == e,
        },
        r matches Ok(v) ==> pos <= v.1 && v.1 <= input@.len(),
{
    if pos < input.len() && input.len() - pos >= 4 {
        let b0 = *vstd::slice::slice_index_get(input, pos);
        let b1 = *vstd::slice::slice_index_get(input, pos + 1);
        let b2 = *vstd::slice::slice_index_get(input, pos + 2);
        let b3 = *vstd::slice::slice_index_get(input, pos + 3);
        Ok(
            (
                (b0 as u32) | ((b1 as u32) << 8) | ((b2 as u32) << 16) | ((b3 as u32) << 24),
                pos + 4,
            ),
        )
    } else {
        Err(Error::UnexpectedEof { offset: pos })
    }
}

/// Reads a little-endian `u64`.
pub fn read_u64(input: &[u8], pos: usize) -> (r: Result<(u64, usize), Error>)
    ensures
        match sd_u64(input@, pos as int) {
            Ok(o) => r matches Ok(v) && v.0 == o.0 && v.1 as int == o.1,
            Err(e) => r matches Err(e2) && e2 == e,
        },
        r matches Ok(v) ==> pos <= v.1 && v.1 <= input@.len(),
{
    if pos < input.len() && input.len() - pos >= 8 {
        let b0 = *vstd::slice::slice_index_get(input, pos);
        let b1 = *vstd::slice::slice_index_get(input, pos + 1);
        let b2 = *vstd::slice::slice_index_get(input, pos + 2);
        let b3 = *vstd::slice::slice_index_get(input, pos + 3);
        let b4 = *vstd::slice::slice_index_get(input, pos + 4);
        let b5 = *vstd::slice::slice_index_get(input, pos + 5);
        let b6 = *vstd::slice::slice_index_get(input, pos + 6);
        let b7 = *vstd::slice::slice_index_get(input, pos + 7);
        Ok(
            (
                (b0 as u64) | ((b1 as u64) << 8) | ((b2 as u64) << 16) | ((b3 as u64) << 24) | ((b4
                    as u64) << 32) | ((b5 as u64) << 40) | ((b6 as u64) << 48) | ((b7 as u64) << 56),
                pos + 8,
            ),
        )
    } else {
        Err(Error::UnexpectedEof { offset: pos })
    }
}

/// Copies `n` raw bytes starting at `pos` into an owned buffer.
pub fn take_bytes(input: &[u8], pos: usize, n: usize) -> (r: Result<(Vec<u8>, usize), Error>)
    ensures
        match sd_bytes(input@, pos as int, n as int) {
            Ok(o) => r matches Ok(v) && v.0@ == o.0 && v.1 as int == o.1,
            Err(e) => r matches Err(e2) && e2 == e,
        },
        r matches Ok(v) ==> pos <= v.1 && v.1 <= input@.len(),
{
    if pos <= input.len() && n <= input.len() - pos {
        let mut out: Vec<u8> = Vec::new();
        let mut i: usize = 0;
        while i < n
            invariant
                pos + n <= input.len(),
                i <= n,
                out@ =~= input@.subrange(pos as int, pos + i),
            decreases n - i,
        {
            out.push(*vstd::slice::slice_index_get(input, pos + i));
            i = i + 1;
            assert(out@ =~= input@.subrange(pos as int, pos + i));
        }
        assert(out@ =~= input@.subrange(pos as int, pos + n as int));
        Ok((out, pos + n))
    } else {
        Err(Error::UnexpectedEof { offset: pos })
    }
}

} // verus!
