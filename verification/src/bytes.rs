//! Reading fixed-width integers out of byte buffers.

use vstd::prelude::*;

verus! {

/// The big-endian value of the two bytes at `pos`.
pub open spec fn be16(s: Seq<u8>, pos: int) -> int {
    s[pos] * 256 + s[pos + 1]
}

/// The big-endian value of the four bytes at `pos`.
pub open spec fn be32(s: Seq<u8>, pos: int) -> int {
    s[pos] * 0x100_0000 + s[pos + 1] * 0x1_0000 + s[pos + 2] * 0x100 + s[pos + 3]
}

/// The little-endian value of the four bytes at `pos`.
pub open spec fn le32(s: Seq<u8>, pos: int) -> int {
    s[pos + 3] * 0x100_0000 + s[pos + 2] * 0x1_0000 + s[pos + 1] * 0x100 + s[pos]
}

/// Reads a big-endian `u16` at `pos`.
pub fn read_be16(s: &[u8], pos: usize) -> (r: u16)
    requires
        pos + 2 <= s.len(),
    ensures
        r == be16(s@, pos as int),
{
    let hi = s[pos] as u16;
    let lo = s[pos + 1] as u16;
    hi * 256 + lo
}

/// Reads a big-endian `u32` at `pos`.
pub fn read_be32(s: &[u8], pos: usize) -> (r: u32)
    requires
        pos + 4 <= s.len(),
    ensures
        r == be32(s@, pos as int),
{
    let b0 = s[pos] as u32;
    let b1 = s[pos + 1] as u32;
    let b2 = s[pos + 2] as u32;
    let b3 = s[pos + 3] as u32;
    b0 * 0x100_0000 + b1 * 0x1_0000 + b2 * 0x100 + b3
}

/// Reads a little-endian `u32` at `pos`.
pub fn read_le32(s: &[u8], pos: usize) -> (r: u32)
    requires
        pos + 4 <= s.len(),
    ensures
        r == le32(s@, pos as int),
{
    let b0 = s[pos] as u32;
    let b1 = s[pos + 1] as u32;
    let b2 = s[pos + 2] as u32;
    let b3 = s[pos + 3] as u32;
    b3 * 0x100_0000 + b2 * 0x1_0000 + b1 * 0x100 + b0
}

} // verus!
