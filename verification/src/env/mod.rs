//! What an execution core asks of its surroundings: a memory bus, a
//! register file, and the causes of traps.

use vstd::prelude::*;
use crate::Xlen;

mod hart;

pub use hart::Hart;

verus! {

/// A memory bus that a hart reads and writes through, with addresses of the
/// width `X`.
///
/// A read has no way to fail: an implementation yields some value for every
/// address. A write that cannot be done fails with the [`Cause`] of the
/// access fault.
pub trait Addressable<X: Xlen> {
    /// Reads the byte at `address`.
    fn read_u8(&self, address: X) -> u8;

    /// Reads the halfword at `address`.
    fn read_u16(&self, address: X) -> u16;

    /// Reads the word at `address`.
    fn read_u32(&self, address: X) -> u32;

    /// Reads the doubleword at `address`.
    fn read_u64(&self, address: X) -> u64;

    /// Writes `byte` at `address`.
    fn write_u8(&self, address: X, byte: u8) -> Result<(), Cause<X>>;

    /// Writes `halfword` at `address`.
    fn write_u16(&self, address: X, halfword: u16) -> Result<(), Cause<X>>;

    /// Writes `word` at `address`.
    fn write_u32(&self, address: X, word: u32) -> Result<(), Cause<X>>;

    /// Writes `doubleword` at `address`.
    fn write_u64(&self, address: X, doubleword: u64) -> Result<(), Cause<X>>;
}

/// The cause of a trap, of the width `X`: the top bit tells an interrupt from
/// an exception, the bits below it hold the code.
///
/// The view of a cause is the value it holds.
#[derive(Clone, Copy)]
pub struct Cause<X: Xlen>(X);

impl<X: Xlen> View for Cause<X> {
    type V = X;

    closed spec fn view(&self) -> X {
        self.0
    }
}

impl PartialEq for Cause<u32> {
    fn eq(&self, other: &Self) -> (equal: bool) {
        self.0 == other.0
    }
}

impl vstd::std_specs::cmp::PartialEqSpecImpl for Cause<u32> {
    open spec fn obeys_eq_spec() -> bool {
        true
    }

    open spec fn eq_spec(&self, other: &Self) -> bool {
        self@ == other@
    }
}

impl Eq for Cause<u32> {
}

impl PartialEq for Cause<u64> {
    fn eq(&self, other: &Self) -> (equal: bool) {
        self.0 == other.0
    }
}

impl vstd::std_specs::cmp::PartialEqSpecImpl for Cause<u64> {
    open spec fn obeys_eq_spec() -> bool {
        true
    }

    open spec fn eq_spec(&self, other: &Self) -> bool {
        self@ == other@
    }
}

impl Eq for Cause<u64> {
}

impl Cause<u32> {
    /// Whether the top bit of the cause, bit 31, is set.
    pub open spec fn spec_interrupt(self) -> bool {
        self@ / 0x8000_0000 == 1
    }

    /// The cause that holds `value`: an interrupt if the top bit of `value`
    /// is set, else the exception whose code `value` is.
    pub fn new(value: u32) -> (cause: Self)
        ensures
            cause@ == value,
    {
        Self(value)
    }

    /// Returns `true` if the cause is an interrupt.
    #[verifier::when_used_as_spec(spec_interrupt)]
    pub fn interrupt(self) -> (i: bool)
        ensures
            i == self.spec_interrupt(),
    {
        let value = self.0;
        assert((value & 0x8000_0000 != 0) == (value / 0x8000_0000 == 1)) by (bit_vector);
        value & 0x8000_0000 != 0
    }

    /// Whether a cause is an interrupt depends on its top bit alone: two
    /// causes with the same top bit agree, whatever their codes are.
    pub proof fn lemma_interrupt_ignores_code(self, other: Self)
        requires
            self@ / 0x8000_0000 == other@ / 0x8000_0000,
        ensures
            self.interrupt() == other.interrupt(),
    {
    }

    /// The exception raised by an instruction fetch from a misaligned address.
    pub fn fetch_misalign() -> (cause: Self)
        ensures
            cause@ == 0,
            !cause.interrupt(),
    {
        Self(0)
    }

    /// The exception raised by an instruction fetch that faulted.
    pub fn fetch_fault() -> (cause: Self)
        ensures
            cause@ == 1,
            !cause.interrupt(),
    {
        Self(1)
    }

    /// The exception raised by an illegal instruction.
    pub fn illegal_instruction() -> (cause: Self)
        ensures
            cause@ == 2,
            !cause.interrupt(),
    {
        Self(2)
    }

    /// The exception raised by a breakpoint.
    pub fn breakpoint() -> (cause: Self)
        ensures
            cause@ == 3,
            !cause.interrupt(),
    {
        Self(3)
    }

    /// The exception raised by a load from a misaligned address.
    pub fn load_misalign() -> (cause: Self)
        ensures
            cause@ == 4,
            !cause.interrupt(),
    {
        Self(4)
    }

    /// The exception raised by a load that faulted.
    pub fn load_fault() -> (cause: Self)
        ensures
            cause@ == 5,
            !cause.interrupt(),
    {
        Self(5)
    }

    /// The exception raised by a store to a misaligned address.
    pub fn store_misalign() -> (cause: Self)
        ensures
            cause@ == 6,
            !cause.interrupt(),
    {
        Self(6)
    }

    /// The exception raised by a store that faulted.
    pub fn store_fault() -> (cause: Self)
        ensures
            cause@ == 7,
            !cause.interrupt(),
    {
        Self(7)
    }
}

impl Cause<u64> {
    /// Whether the top bit of the cause, bit 63, is set.
    pub open spec fn spec_interrupt(self) -> bool {
        self@ / 0x8000_0000_0000_0000 == 1
    }

    /// The cause that holds `value`: an interrupt if the top bit of `value`
    /// is set, else the exception whose code `value` is.
    pub fn new(value: u64) -> (cause: Self)
        ensures
            cause@ == value,
    {
        Self(value)
    }

    /// Returns `true` if the cause is an interrupt.
    #[verifier::when_used_as_spec(spec_interrupt)]
    pub fn interrupt(self) -> (i: bool)
        ensures
            i == self.spec_interrupt(),
    {
        let value = self.0;
        assert((value & 0x8000_0000_0000_0000 != 0) == (value / 0x8000_0000_0000_0000 == 1))
            by (bit_vector);
        value & 0x8000_0000_0000_0000 != 0
    }

    /// Whether a cause is an interrupt depends on its top bit alone: two
    /// causes with the same top bit agree, whatever their codes are.
    pub proof fn lemma_interrupt_ignores_code(self, other: Self)
        requires
            self@ / 0x8000_0000_0000_0000 == other@ / 0x8000_0000_0000_0000,
        ensures
            self.interrupt() == other.interrupt(),
    {
    }

    /// The exception raised by an instruction fetch from a misaligned address.
    pub fn fetch_misalign() -> (cause: Self)
        ensures
            cause@ == 0,
            !cause.interrupt(),
    {
        Self(0)
    }

    /// The exception raised by an instruction fetch that faulted.
    pub fn fetch_fault() -> (cause: Self)
        ensures
            cause@ == 1,
            !cause.interrupt(),
    {
        Self(1)
    }

    /// The exception raised by an illegal instruction.
    pub fn illegal_instruction() -> (cause: Self)
        ensures
            cause@ == 2,
            !cause.interrupt(),
    {
        Self(2)
    }

    /// The exception raised by a breakpoint.
    pub fn breakpoint() -> (cause: Self)
        ensures
            cause@ == 3,
            !cause.interrupt(),
    {
        Self(3)
    }

    /// The exception raised by a load from a misaligned address.
    pub fn load_misalign() -> (cause: Self)
        ensures
            cause@ == 4,
            !cause.interrupt(),
    {
        Self(4)
    }

    /// The exception raised by a load that faulted.
    pub fn load_fault() -> (cause: Self)
        ensures
            cause@ == 5,
            !cause.interrupt(),
    {
        Self(5)
    }

    /// The exception raised by a store to a misaligned address.
    pub fn store_misalign() -> (cause: Self)
        ensures
            cause@ == 6,
            !cause.interrupt(),
    {
        Self(6)
    }

    /// The exception raised by a store that faulted.
    pub fn store_fault() -> (cause: Self)
        ensures
            cause@ == 7,
            !cause.interrupt(),
    {
        Self(7)
    }
}

} // verus!
