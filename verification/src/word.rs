//! The arithmetic reading of a 32-bit word: what a range of its bits holds
//! as a number, and what a number stands for in two's complement.

use vstd::prelude::*;

verus! {

/// Two to the power `n`, for the bit positions `0` to `32` of a 32-bit word.
#[verifier::inline]
pub open spec fn two_to(n: u32) -> int {
    match n {
        0 => 0x1,
        1 => 0x2,
        2 => 0x4,
        3 => 0x8,
        4 => 0x10,
        5 => 0x20,
        6 => 0x40,
        7 => 0x80,
        8 => 0x100,
        9 => 0x200,
        10 => 0x400,
        11 => 0x800,
        12 => 0x1000,
        13 => 0x2000,
        14 => 0x4000,
        15 => 0x8000,
        16 => 0x1_0000,
        17 => 0x2_0000,
        18 => 0x4_0000,
        19 => 0x8_0000,
        20 => 0x10_0000,
        21 => 0x20_0000,
        22 => 0x40_0000,
        23 => 0x80_0000,
        24 => 0x100_0000,
        25 => 0x200_0000,
        26 => 0x400_0000,
        27 => 0x800_0000,
        28 => 0x1000_0000,
        29 => 0x2000_0000,
        30 => 0x4000_0000,
        31 => 0x8000_0000,
        _ => 0x1_0000_0000,
    }
}

/// The unsigned number that the bits `high` down to `low` of `word` hold,
/// bit `0` being the least significant one.
#[verifier::inline]
pub open spec fn bits(word: u32, high: u32, low: u32) -> int
    recommends
        low <= high <= 31,
{
    (word as int / two_to(low)) % two_to((high + 1 - low) as u32)
}

/// Bit `index` of `word`, as `0` or `1`.
#[verifier::inline]
pub open spec fn bit(word: u32, index: u32) -> int
    recommends
        index <= 31,
{
    bits(word, index, index)
}

/// The number whose `count` lowest bits are all set.
#[verifier::inline]
pub open spec fn ones(count: u32) -> int
    recommends
        count <= 32,
{
    two_to(count) - 1
}

/// The number `value` moved up so that its lowest bit is bit `low`.
#[verifier::inline]
pub open spec fn placed(value: int, low: u32) -> int {
    value * two_to(low)
}

/// The signed number that `raw`, a field of `width` bits, stands for in two's
/// complement.
#[verifier::inline]
pub open spec fn sign_extended(raw: int, width: u32) -> int
    recommends
        1 <= width <= 32,
        0 <= raw < two_to(width),
{
    if raw >= two_to((width - 1) as u32) {
        raw - two_to(width)
    } else {
        raw
    }
}

/// The unsigned reading of the 32-bit two's-complement pattern of `value`.
#[verifier::inline]
pub open spec fn as_pattern(value: int) -> int
    recommends
        -0x8000_0000 <= value < 0x1_0000_0000,
{
    if value < 0 {
        value + 0x1_0000_0000
    } else {
        value
    }
}

} // verus!
