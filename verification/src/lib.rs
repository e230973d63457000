//! The front end of a RISC-V interpreter.
//!
//! [`Instruction`] decodes a 32-bit standard or a 16-bit compressed encoding
//! into its fields: opcode and function codes, register operands and
//! sign-extended immediates. [`Hart`] and [`Addressable`] are what an
//! execution core asks of a register file and of a memory bus, and [`Cause`]
//! tells why a trap was taken.
//!
//! Every decoding function states which bits of the encoding it returns, over
//! the arithmetic reading of a word in [`word`].

use vstd::prelude::*;

pub mod env;
pub mod immediate;
mod instruction;
mod register;
pub mod text;
pub mod word;

pub use env::{Addressable, Cause, Hart};
pub use instruction::Instruction;
pub use register::Register;

verus! {

/// The width of the integer registers and of addresses: implemented by `u32`
/// and by `u64`.
pub trait Xlen {
    /// The number of bits.
    const BITS: usize;

    /// The largest value, as far as a `usize` holds it.
    const MAX: usize;
}

impl Xlen for u32 {
    const BITS: usize = u32::BITS as usize;

    const MAX: usize = u32::MAX as usize;
}

impl Xlen for u64 {
    const BITS: usize = u64::BITS as usize;

    const MAX: usize = u64::MAX as usize;
}

/// The two widths: 32 bits with the largest value `2^32 - 1`, and 64 bits
/// with the largest value `2^64 - 1` where a `usize` has 64 bits.
pub proof fn lemma_widths()
    ensures
        <u32 as Xlen>::BITS == 32,
        <u32 as Xlen>::MAX == 0xFFFF_FFFF,
        <u64 as Xlen>::BITS == 64,
        usize::BITS == 64 ==> <u64 as Xlen>::MAX == 0xFFFF_FFFF_FFFF_FFFF,
{
}

} // verus!
