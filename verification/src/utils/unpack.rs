//! Numbers read from a buffer of bytes, in either byte order.
use crate::err::{ErrorView, ForensicError, ForensicResult};
use vstd::prelude::*;

verus! {

/// The number that `len` bytes at `pos` spell with the least significant
/// byte first.
pub open spec fn le_value(buffer: Seq<u8>, pos: int, len: nat) -> nat
    decreases len,
{
    if len == 0 {
        0
    } else {
        buffer[pos] as nat + 256 * le_value(buffer, pos + 1, (len - 1) as nat)
    }
}

/// The number that `len` bytes at `pos` spell with the most significant
/// byte first.
pub open spec fn be_value(buffer: Seq<u8>, pos: int, len: nat) -> nat
    decreases len,
{
    if len == 0 {
        0
    } else {
        256 * be_value(buffer, pos, (len - 1) as nat) + buffer[pos + len - 1] as nat
    }
}

/// Whether `len` bytes lie in the buffer from `pos` on.
pub open spec fn in_bounds(buffer: Seq<u8>, pos: int, len: int) -> bool {
    0 <= pos && pos + len <= buffer.len()
}

/// A number of `len` bytes is below 256 to the power of `len`.
pub proof fn lemma_le_value_bound(buffer: Seq<u8>, pos: int, len: nat)
    requires
        len <= 8,
    ensures
        len == 0 ==> le_value(buffer, pos, len) == 0,
        len == 1 ==> le_value(buffer, pos, len) < 0x100,
        len == 2 ==> le_value(buffer, pos, len) < 0x1_0000,
        len == 3 ==> le_value(buffer, pos, len) < 0x100_0000,
        len == 4 ==> le_value(buffer, pos, len) < 0x1_0000_0000,
        len == 5 ==> le_value(buffer, pos, len) < 0x100_0000_0000,
        len == 6 ==> le_value(buffer, pos, len) < 0x1_0000_0000_0000,
        len == 7 ==> le_value(buffer, pos, len) < 0x100_0000_0000_0000,
        len == 8 ==> le_value(buffer, pos, len) < 0x1_0000_0000_0000_0000,
    decreases len,
{
    if len > 0 {
        lemma_le_value_bound(buffer, pos + 1, (len - 1) as nat);
    }
}

/// A number of `len` bytes is below 256 to the power of `len`.
pub proof fn lemma_be_value_bound(buffer: Seq<u8>, pos: int, len: nat)
    requires
        len <= 8,
    ensures
        len == 0 ==> be_value(buffer, pos, len) == 0,
        len == 1 ==> be_value(buffer, pos, len) < 0x100,
        len == 2 ==> be_value(buffer, pos, len) < 0x1_0000,
        len == 3 ==> be_value(buffer, pos, len) < 0x100_0000,
        len == 4 ==> be_value(buffer, pos, len) < 0x1_0000_0000,
        len == 5 ==> be_value(buffer, pos, len) < 0x100_0000_0000,
        len == 6 ==> be_value(buffer, pos, len) < 0x1_0000_0000_0000,
        len == 7 ==> be_value(buffer, pos, len) < 0x100_0000_0000_0000,
        len == 8 ==> be_value(buffer, pos, len) < 0x1_0000_0000_0000_0000,
    decreases len,
{
    if len > 0 {
        lemma_be_value_bound(buffer, pos, (len - 1) as nat);
    }
}

/// Reads `len` bytes at `pos`, least significant byte first.
fn read_le(buffer: &[u8], pos: usize, len: usize) -> (r: u64)
    requires
        len <= 8,
        in_bounds(buffer@, pos as int, len as int),
    ensures
        r == le_value(buffer@, pos as int, len as nat),
{
    let n = buffer.len();
    let mut r: u64 = 0;
    let mut i: usize = len;
    while i > 0
        invariant
            i <= len <= 8,
            n == buffer@.len(),
            in_bounds(buffer@, pos as int, len as int),
            r == le_value(buffer@, pos + i, (len - i) as nat),
        decreases i,
    {
        proof {
            lemma_le_value_bound(buffer@, pos + i, (len - i) as nat);
        }
        i = i - 1;
        r = r * 256 + buffer[pos + i] as u64;
    }
    r
}

/// Reads `len` bytes at `pos`, most significant byte first.
pub(crate) fn read_be(buffer: &[u8], pos: usize, len: usize) -> (r: u64)
    requires
        len <= 8,
        in_bounds(buffer@, pos as int, len as int),
    ensures
        r == be_value(buffer@, pos as int, len as nat),
{
    let n = buffer.len();
    let mut r: u64 = 0;
    let mut i: usize = 0;
    while i < len
        invariant
            i <= len <= 8,
            n == buffer@.len(),
            in_bounds(buffer@, pos as int, len as int),
            r == be_value(buffer@, pos as int, i as nat),
        decreases len - i,
    {
        proof {
            lemma_be_value_bound(buffer@, pos as int, i as nat);
        }
        r = r * 256 + buffer[pos + i] as u64;
        i = i + 1;
    }
    r
}

/// Whether `len` bytes lie in the buffer from `pos` on.
fn fits(buffer: &[u8], pos: usize, len: usize) -> (r: bool)
    ensures
        r == in_bounds(buffer@, pos as int, len as int),
{
    pos <= buffer.len() && buffer.len() - pos >= len
}

/// The 16-bit number at `pos`, least significant byte first.
pub fn u16_at_pos(buffer: &[u8], pos: usize) -> (r: u16)
    requires
        in_bounds(buffer@, pos as int, 2),
    ensures
        r == le_value(buffer@, pos as int, 2),
{
    proof {
        lemma_le_value_bound(buffer@, pos as int, 2);
    }
    read_le(buffer, pos, 2) as u16
}

/// The 32-bit number at `pos`, least significant byte first.
pub fn u32_at_pos(buffer: &[u8], pos: usize) -> (r: u32)
    requires
        in_bounds(buffer@, pos as int, 4),
    ensures
        r == le_value(buffer@, pos as int, 4),
{
    proof {
        lemma_le_value_bound(buffer@, pos as int, 4);
    }
    read_le(buffer, pos, 4) as u32
}

/// The 64-bit number at `pos`, least significant byte first.
pub fn u64_at_pos(buffer: &[u8], pos: usize) -> (r: u64)
    requires
        in_bounds(buffer@, pos as int, 8),
    ensures
        r == le_value(buffer@, pos as int, 8),
{
    read_le(buffer, pos, 8)
}

/// The 16-bit number at `pos`, most significant byte first.
pub fn u16b_at_pos(buffer: &[u8], pos: usize) -> (r: u16)
    requires
        in_bounds(buffer@, pos as int, 2),
    ensures
        r == be_value(buffer@, pos as int, 2),
{
    proof {
        lemma_be_value_bound(buffer@, pos as int, 2);
    }
    read_be(buffer, pos, 2) as u16
}

/// The 32-bit number at `pos`, most significant byte first.
pub fn u32b_at_pos(buffer: &[u8], pos: usize) -> (r: u32)
    requires
        in_bounds(buffer@, pos as int, 4),
    ensures
        r == be_value(buffer@, pos as int, 4),
{
    proof {
        lemma_be_value_bound(buffer@, pos as int, 4);
    }
    read_be(buffer, pos, 4) as u32
}

/// The 64-bit number at `pos`, most significant byte first.
pub fn u64b_at_pos(buffer: &[u8], pos: usize) -> (r: u64)
    requires
        in_bounds(buffer@, pos as int, 8),
    ensures
        r == be_value(buffer@, pos as int, 8),
{
    read_be(buffer, pos, 8)
}

/// The 16-bit number at `pos`, least significant byte first; an error
/// where two bytes do not lie in the buffer from there on.
pub fn u16_at_pos_safe(buffer: &[u8], pos: usize) -> (r: ForensicResult<u16>)
    ensures
        match r {
            Ok(v) => in_bounds(buffer@, pos as int, 2) && v == le_value(buffer@, pos as int, 2),
            Err(e) => !in_bounds(buffer@, pos as int, 2) && e@ == ErrorView::BadFormat(
                "Buffer does not have enough space for u16"@,
            ),
        },
{
    if !fits(buffer, pos, 2) {
        return Err(ForensicError::bad_format_str("Buffer does not have enough space for u16"));
    }
    Ok(u16_at_pos(buffer, pos))
}

/// The 32-bit number at `pos`, least significant byte first; an error
/// where four bytes do not lie in the buffer from there on.
pub fn u32_at_pos_safe(buffer: &[u8], pos: usize) -> (r: ForensicResult<u32>)
    ensures
        match r {
            Ok(v) => in_bounds(buffer@, pos as int, 4) && v == le_value(buffer@, pos as int, 4),
            Err(e) => !in_bounds(buffer@, pos as int, 4) && e@ == ErrorView::BadFormat(
                "Buffer does not have enough space for u32"@,
            ),
        },
{
    if !fits(buffer, pos, 4) {
        return Err(ForensicError::bad_format_str("Buffer does not have enough space for u32"));
    }
    Ok(u32_at_pos(buffer, pos))
}

/// The 64-bit number at `pos`, least significant byte first; an error
/// where eight bytes do not lie in the buffer from there on.
pub fn u64_at_pos_safe(buffer: &[u8], pos: usize) -> (r: ForensicResult<u64>)
    ensures
        match r {
            Ok(v) => in_bounds(buffer@, pos as int, 8) && v == le_value(buffer@, pos as int, 8),
            Err(e) => !in_bounds(buffer@, pos as int, 8) && e@ == ErrorView::BadFormat(
                "Buffer does not have enough space for u64"@,
            ),
        },
{
    if !fits(buffer, pos, 8) {
        return Err(ForensicError::bad_format_str("Buffer does not have enough space for u64"));
    }
    Ok(u64_at_pos(buffer, pos))
}

/// The 16-bit number at `pos`, most significant byte first; an error where
/// two bytes do not lie in the buffer from there on.
pub fn u16b_at_pos_safe(buffer: &[u8], pos: usize) -> (r: ForensicResult<u16>)
    ensures
        match r {
            Ok(v) => in_bounds(buffer@, pos as int, 2) && v == be_value(buffer@, pos as int, 2),
            Err(e) => !in_bounds(buffer@, pos as int, 2) && e@ == ErrorView::BadFormat(
                "Buffer does not have enough space for u16"@,
            ),
        },
{
    if !fits(buffer, pos, 2) {
        return Err(ForensicError::bad_format_str("Buffer does not have enough space for u16"));
    }
    Ok(u16b_at_pos(buffer, pos))
}

/// The 32-bit number at `pos`, most significant byte first; an error where
/// four bytes do not lie in the buffer from there on.
pub fn u32b_at_pos_safe(buffer: &[u8], pos: usize) -> (r: ForensicResult<u32>)
    ensures
        match r {
            Ok(v) => in_bounds(buffer@, pos as int, 4) && v == be_value(buffer@, pos as int, 4),
            Err(e) => !in_bounds(buffer@, pos as int, 4) && e@ == ErrorView::BadFormat(
                "Buffer does not have enough space for u32"@,
            ),
        },
{
    if !fits(buffer, pos, 4) {
        return Err(ForensicError::bad_format_str("Buffer does not have enough space for u32"));
    }
    Ok(u32b_at_pos(buffer, pos))
}

/// The 64-bit number at `pos`, most significant byte first; an error where
/// eight bytes do not lie in the buffer from there on.
pub fn u64b_at_pos_safe(buffer: &[u8], pos: usize) -> (r: ForensicResult<u64>)
    ensures
        match r {
            Ok(v) => in_bounds(buffer@, pos as int, 8) && v == be_value(buffer@, pos as int, 8),
            Err(e) => !in_bounds(buffer@, pos as int, 8) && e@ == ErrorView::BadFormat(
                "Buffer does not have enough space for u64"@,
            ),
        },
{
    if !fits(buffer, pos, 8) {
        return Err(ForensicError::bad_format_str("Buffer does not have enough space for u64"));
    }
    Ok(u64b_at_pos(buffer, pos))
}

} // verus!
