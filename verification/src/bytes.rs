//! Numbers spelled as bytes, low byte first.

use vstd::prelude::*;

verus! {

/// The number that the two bytes of `s` from `at` on spell, low byte first.
pub open spec fn le16(s: Seq<u8>, at: int) -> int {
    s[at] + 0x100 * s[at + 1]
}

/// The number that the four bytes of `s` from `at` on spell, low byte first.
pub open spec fn le32(s: Seq<u8>, at: int) -> int {
    s[at] + 0x100 * s[at + 1] + 0x1_0000 * s[at + 2] + 0x100_0000 * s[at + 3]
}

/// The number that the eight bytes of `s` from `at` on spell, low byte
/// first.
pub open spec fn le64(s: Seq<u8>, at: int) -> int {
    le32(s, at) + 0x1_0000_0000 * le32(s, at + 4)
}

/// `n` rounded up to a multiple of four.
pub open spec fn pad4(n: int) -> int {
    (n + 3) / 4 * 4
}

pub(crate) fn read_le16(buf: &[u8], at: usize) -> (v: u16)
    requires
        at + 2 <= buf@.len(),
    ensures
        v == le16(buf@, at as int),
{
    buf[at] as u16 + buf[at + 1] as u16 * 0x100
}

pub(crate) fn read_le32(buf: &[u8], at: usize) -> (v: u32)
    requires
        at + 4 <= buf@.len(),
    ensures
        v == le32(buf@, at as int),
{
    buf[at] as u32 + buf[at + 1] as u32 * 0x100 + buf[at + 2] as u32 * 0x1_0000 + buf[at
        + 3] as u32 * 0x100_0000
}

pub(crate) fn read_le64(buf: &[u8], at: usize) -> (v: u64)
    requires
        at + 8 <= buf@.len(),
    ensures
        v == le64(buf@, at as int),
{
    let len = buf.len();
    let low = read_le32(buf, at);
    let high = read_le32(buf, at + 4);
    low as u64 + high as u64 * 0x1_0000_0000
}

pub(crate) fn round_up4(n: u32) -> (r: u64)
    ensures
        r == pad4(n as int),
        n <= r <= n + 3,
{
    (n as u64 + 3) / 4 * 4
}

} // verus!
