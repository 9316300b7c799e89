//! Bounds-checked reads from a byte slice at an explicit offset: little-endian
//! integers, length-prefixed text and 32-byte keys. A read either succeeds and
//! says where the next one starts, or it is absent; none of them panics.

use crate::codec::{base58_encode, base58_text, utf8_lossy, utf8_lossy_text};
use vstd::prelude::*;
use vstd::slice::slice_subrange;

verus! {

/// Whether `width` bytes starting at `offset` lie inside `buf`.
pub open spec fn in_bounds(buf: Seq<u8>, offset: int, width: int) -> bool {
    0 <= offset && offset + width <= buf.len()
}

/// The number that two bytes at `at` spell, least significant byte first.
pub open spec fn le_u16(buf: Seq<u8>, at: int) -> int {
    buf[at] as int + 256 * (buf[at + 1] as int)
}

/// The number that four bytes at `at` spell, least significant byte first.
pub open spec fn le_u32(buf: Seq<u8>, at: int) -> int {
    le_u16(buf, at) + 65536 * le_u16(buf, at + 2)
}

/// The number that eight bytes at `at` spell, least significant byte first.
pub open spec fn le_u64(buf: Seq<u8>, at: int) -> int {
    le_u32(buf, at) + 4294967296 * le_u32(buf, at + 4)
}

/// Reads a little-endian `u16` at `offset`; absent when fewer than two bytes remain.
pub fn read_u16_le(buf: &[u8], offset: usize) -> (r: Option<u16>)
    ensures
        r is Some <==> in_bounds(buf@, offset as int, 2),
        r is Some ==> r->0 as int == le_u16(buf@, offset as int),
{
    if buf.len() < 2 || offset > buf.len() - 2 {
        return None;
    }
    let lo: u16 = buf[offset] as u16;
    let hi: u16 = buf[offset + 1] as u16;
    Some(lo + 256 * hi)
}

/// Reads a little-endian `u32` at `offset`; absent when fewer than four bytes remain.
pub fn read_u32_le(buf: &[u8], offset: usize) -> (r: Option<u32>)
    ensures
        r is Some <==> in_bounds(buf@, offset as int, 4),
        r is Some ==> r->0 as int == le_u32(buf@, offset as int),
{
    if buf.len() < 4 || offset > buf.len() - 4 {
        return None;
    }
    let b0: u32 = buf[offset] as u32;
    let b1: u32 = buf[offset + 1] as u32;
    let b2: u32 = buf[offset + 2] as u32;
    let b3: u32 = buf[offset + 3] as u32;
    Some(b0 + 256 * b1 + 65536 * (b2 + 256 * b3))
}

/// Reads a little-endian `u64` at `offset`; absent when fewer than eight bytes remain.
pub fn read_u64_le(buf: &[u8], offset: usize) -> (r: Option<u64>)
    ensures
        r is Some <==> in_bounds(buf@, offset as int, 8),
        r is Some ==> r->0 as int == le_u64(buf@, offset as int),
{
    if buf.len() < 8 || offset > buf.len() - 8 {
        return None;
    }
    let low: u64 = match read_u32_le(buf, offset) {
        Some(v) => v as u64,
        None => 0,
    };
    let high: u64 = match read_u32_le(buf, offset + 4) {
        Some(v) => v as u64,
        None => 0,
    };
    Some(low + 4294967296 * high)
}

/// Whether a length-prefixed text starts at `offset` and ends inside `buf`.
pub open spec fn text_in_bounds(buf: Seq<u8>, offset: int) -> bool {
    in_bounds(buf, offset, 4) && offset + 4 + le_u32(buf, offset) <= buf.len()
}

/// The offset just behind the length-prefixed text that starts at `offset`.
pub open spec fn text_end(buf: Seq<u8>, offset: int) -> int {
    offset + 4 + le_u32(buf, offset)
}

/// Reads a four-byte little-endian length and then that many bytes as UTF-8,
/// replacing what is not valid. Absent when the length field or the text it
/// announces reaches past the end of `buf`.
pub fn read_length_prefixed_utf8(buf: &[u8], offset: usize) -> (r: Option<(String, usize)>)
    ensures
        match r {
            Some((text, next)) => {
                &&& text_in_bounds(buf@, offset as int)
                &&& next as int == text_end(buf@, offset as int)
                &&& text@ == utf8_lossy_text(buf@.subrange(offset as int + 4, next as int))
            },
            None => !text_in_bounds(buf@, offset as int),
        },
{
    let total: usize = buf.len();
    let len: u32 = match read_u32_le(buf, offset) {
        Some(v) => v,
        None => { return None; },
    };
    let start: usize = offset + 4;
    let room: usize = total - start;
    if len as u64 > room as u64 {
        return None;
    }
    let end: usize = start + len as usize;
    let text = utf8_lossy(slice_subrange(buf, start, end));
    Some((text, end))
}

/// Reads 32 bytes and writes them in Base58. Absent when fewer than 32 bytes
/// remain.
pub fn read_pubkey_b58(buf: &[u8], offset: usize) -> (r: Option<(String, usize)>)
    ensures
        match r {
            Some((text, next)) => {
                &&& in_bounds(buf@, offset as int, 32)
                &&& next as int == offset + 32
                &&& text@ == base58_text(buf@.subrange(offset as int, next as int))
            },
            None => !in_bounds(buf@, offset as int, 32),
        },
{
    if buf.len() < 32 || offset > buf.len() - 32 {
        return None;
    }
    let end: usize = offset + 32;
    let text = base58_encode(slice_subrange(buf, offset, end));
    Some((text, end))
}

} // verus!
