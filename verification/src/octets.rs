//! Reading big-endian numbers out of a payload.

use vstd::prelude::*;

verus! {

/// The number that the two bytes from `at` on hold, high byte first.
pub open spec fn u16_at(payload: Seq<u8>, at: int) -> int {
    payload[at] * 256 + payload[at + 1]
}

/// The number that the three bytes from `at` on hold, high byte first.
pub open spec fn u24_at(payload: Seq<u8>, at: int) -> int {
    (payload[at] * 256 + payload[at + 1]) * 256 + payload[at + 2]
}

/// The number that the four bytes from `at` on hold, high byte first.
pub open spec fn u32_at(payload: Seq<u8>, at: int) -> int {
    ((payload[at] * 256 + payload[at + 1]) * 256 + payload[at + 2]) * 256 + payload[at + 3]
}

pub(crate) fn read_u16(payload: &[u8], at: usize) -> (n: usize)
    requires
        at + 2 <= payload@.len(),
    ensures
        n == u16_at(payload@, at as int),
        n < 0x1_0000,
{
    payload[at] as usize * 256 + payload[at + 1] as usize
}

pub(crate) fn read_u24(payload: &[u8], at: usize) -> (n: usize)
    requires
        at + 3 <= payload@.len(),
    ensures
        n == u24_at(payload@, at as int),
        n < 0x100_0000,
{
    (payload[at] as usize * 256 + payload[at + 1] as usize) * 256 + payload[at + 2] as usize
}

pub(crate) fn read_u32(payload: &[u8], at: usize) -> (n: u32)
    requires
        at + 4 <= payload@.len(),
    ensures
        n == u32_at(payload@, at as int),
{
    ((payload[at] as u32 * 256 + payload[at + 1] as u32) * 256 + payload[at + 2] as u32) * 256
        + payload[at + 3] as u32
}

} // verus!
