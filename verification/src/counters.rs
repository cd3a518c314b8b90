//! Narrowing of raw counters to the integer widths of the records.

use vstd::prelude::*;

verus! {

/// What an unsigned 64-bit counter reads as when its bits are taken as a
/// signed number: itself below 2^63, and 2^64 less from there on.
pub open spec fn signed_reading(v: u64) -> int {
    if v <= i64::MAX {
        v as int
    } else {
        v - 0x1_0000_0000_0000_0000
    }
}

/// The low 32 bits of a value.
pub open spec fn low_bits(v: nat) -> nat {
    v % 0x1_0000_0000
}

/// The low 32 bits of a count, and zero where there is none.
pub open spec fn low_bits_or_zero(count: Option<usize>) -> nat {
    match count {
        Some(n) => low_bits(n as nat),
        None => 0,
    }
}

/// Reinterprets a counter as a signed 64-bit number, wrapping above `i64::MAX`.
pub fn counter_to_i64(v: u64) -> (r: i64)
    ensures
        r == signed_reading(v),
{
    if v <= 0x7fff_ffff_ffff_ffff {
        v as i64
    } else {
        let high: u64 = v - 0x8000_0000_0000_0000;
        (high as i64) + i64::MIN
    }
}

/// Keeps the low 32 bits of a 64-bit value.
pub fn low_u32(v: u64) -> (r: u32)
    ensures
        r == low_bits(v as nat),
{
    (v % 0x1_0000_0000) as u32
}

/// Keeps the low 32 bits of a count, with zero standing for a missing one.
pub fn count_or_zero(count: Option<usize>) -> (r: u32)
    ensures
        r == low_bits_or_zero(count),
{
    match count {
        Some(n) => ((n as u64) % 0x1_0000_0000) as u32,
        None => 0,
    }
}

} // verus!
