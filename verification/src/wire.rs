//! Fixed-width integers as they lie in the mapped bytes: little-endian, as the
//! publishing process writes them.

use vstd::prelude::*;

verus! {

/// The unsigned 32-bit integer stored in the four bytes of `bytes` from `at` on.
pub open spec fn le_u32(bytes: Seq<u8>, at: int) -> u32 {
    (bytes[at] as int + bytes[at + 1] as int * 0x100 + bytes[at + 2] as int * 0x1_0000
        + bytes[at + 3] as int * 0x100_0000) as u32
}

/// The signed 32-bit integer stored in the four bytes of `bytes` from `at` on,
/// in two's complement.
pub open spec fn le_i32(bytes: Seq<u8>, at: int) -> i32 {
    let unsigned = le_u32(bytes, at);
    if unsigned < 0x8000_0000 {
        unsigned as i32
    } else {
        (unsigned - 0x1_0000_0000) as i32
    }
}

/// The four bytes that store `value`, lowest byte first.
pub open spec fn u32_le_bytes(value: u32) -> Seq<u8> {
    seq![
        (value % 0x100) as u8,
        (value / 0x100 % 0x100) as u8,
        (value / 0x1_0000 % 0x100) as u8,
        (value / 0x100_0000) as u8,
    ]
}

/// The four bytes that store `value` in two's complement, lowest byte first.
pub open spec fn i32_le_bytes(value: i32) -> Seq<u8> {
    if value >= 0 {
        u32_le_bytes(value as u32)
    } else {
        u32_le_bytes((value + 0x1_0000_0000) as u32)
    }
}

/// Reads the unsigned 32-bit integer at byte offset `at`.
pub(crate) fn read_u32(view: &[u8], at: usize) -> (value: u32)
    requires
        at + 4 <= view@.len(),
    ensures
        value == le_u32(view@, at as int),
{
    let b0: u32 = view[at] as u32;
    let b1: u32 = view[at + 1] as u32;
    let b2: u32 = view[at + 2] as u32;
    let b3: u32 = view[at + 3] as u32;
    b0 + b1 * 0x100 + b2 * 0x1_0000 + b3 * 0x100_0000
}

/// Reads the signed 32-bit integer at byte offset `at`.
pub(crate) fn read_i32(view: &[u8], at: usize) -> (value: i32)
    requires
        at + 4 <= view@.len(),
    ensures
        value == le_i32(view@, at as int),
{
    let unsigned: u32 = read_u32(view, at);
    if unsigned < 0x8000_0000 {
        unsigned as i32
    } else {
        ((unsigned - 0x8000_0000) as i32) + i32::MIN
    }
}

/// Reading back what `u32_le_bytes` laid out gives the value again, wherever
/// the four bytes stand in the buffer.
pub proof fn lemma_u32_round_trip(bytes: Seq<u8>, at: int, value: u32)
    requires
        0 <= at,
        at + 4 <= bytes.len(),
        bytes.subrange(at, at + 4) == u32_le_bytes(value),
    ensures
        le_u32(bytes, at) == value,
{
    let stored = bytes.subrange(at, at + 4);
    assert(stored[0] == bytes[at] && stored[1] == bytes[at + 1] && stored[2] == bytes[at + 2]
        && stored[3] == bytes[at + 3]);
}

/// Reading back what `i32_le_bytes` laid out gives the value again.
pub proof fn lemma_i32_round_trip(bytes: Seq<u8>, at: int, value: i32)
    requires
        0 <= at,
        at + 4 <= bytes.len(),
        bytes.subrange(at, at + 4) == i32_le_bytes(value),
    ensures
        le_i32(bytes, at) == value,
{
    if value >= 0 {
        lemma_u32_round_trip(bytes, at, value as u32);
    } else {
        lemma_u32_round_trip(bytes, at, (value + 0x1_0000_0000) as u32);
    }
}

} // verus!
