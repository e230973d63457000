//! The immediates of the standard instruction formats, as the signed numbers
//! that the bits of an encoding stand for.

use vstd::prelude::*;
use crate::word::{bit, bits, placed, sign_extended};

verus! {

/// The I-type immediate of `word`: bits [31:20], a signed field of 12 bits.
pub open spec fn i_type(word: u32) -> int {
    sign_extended(bits(word, 31, 20), 12)
}

/// The S-type immediate of `word`, a signed field of 12 bits: bits [31:25]
/// are its bits [11:5], bits [11:7] are its bits [4:0].
pub open spec fn s_type(word: u32) -> int {
    sign_extended(placed(bits(word, 31, 25), 5) + bits(word, 11, 7), 12)
}

/// The B-type immediate of `word`, a signed field of 13 bits whose bit 0 is
/// zero: bit 31 is its bit 12, bit 7 its bit 11, bits [30:25] are its bits
/// [10:5] and bits [11:8] its bits [4:1].
pub open spec fn b_type(word: u32) -> int {
    sign_extended(
        placed(bit(word, 31), 12) + placed(bit(word, 7), 11) + placed(bits(word, 30, 25), 5)
            + placed(bits(word, 11, 8), 1),
        13,
    )
}

/// The U-type immediate of `word`: bits [31:12] in place, over twelve zero
/// bits. It fills the 32 bits, so it is given as they read unsigned.
pub open spec fn u_type(word: u32) -> int {
    placed(bits(word, 31, 12), 12)
}

/// The J-type immediate of `word`, a signed field of 21 bits whose bit 0 is
/// zero: bit 31 is its bit 20, bits [19:12] stay in place, bit 20 is its
/// bit 11 and bits [30:21] are its bits [10:1].
pub open spec fn j_type(word: u32) -> int {
    sign_extended(
        placed(bit(word, 31), 20) + placed(bits(word, 19, 12), 12) + placed(bit(word, 20), 11)
            + placed(bits(word, 30, 21), 1),
        21,
    )
}

/// An I-type immediate is a signed number of 12 bits.
pub proof fn lemma_i_type_range(word: u32)
    ensures
        -0x800 <= i_type(word) < 0x800,
{
}

/// An S-type immediate is a signed number of 12 bits.
pub proof fn lemma_s_type_range(word: u32)
    ensures
        -0x800 <= s_type(word) < 0x800,
{
}

/// A B-type immediate is an even signed number of 13 bits.
pub proof fn lemma_b_type_range(word: u32)
    ensures
        -0x1000 <= b_type(word) < 0x1000,
        b_type(word) % 2 == 0,
{
}

/// A U-type immediate is a multiple of `2^12` that fits 32 bits.
pub proof fn lemma_u_type_range(word: u32)
    ensures
        0 <= u_type(word) < 0x1_0000_0000,
        u_type(word) % 0x1000 == 0,
{
}

/// A J-type immediate is an even signed number of 21 bits.
pub proof fn lemma_j_type_range(word: u32)
    ensures
        -0x10_0000 <= j_type(word) < 0x10_0000,
        j_type(word) % 2 == 0,
{
}

} // verus!
