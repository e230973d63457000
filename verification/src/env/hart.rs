use vstd::prelude::*;
use crate::env::Addressable;
use crate::register::Register;
use crate::Xlen;

verus! {

/// A hardware thread: a file of 32 registers of the width `X`, and the bus
/// `A` that it is attached to.
///
/// Every [`Register`] names a register of the file, so neither loading nor
/// storing has a way to fail.
pub trait Hart<X: Xlen, A: Addressable<X>> {
    /// Reads the register `r`.
    fn load_register(&self, r: Register) -> X;

    /// Writes `v` to the register `r`.
    fn store_register(&mut self, r: Register, v: X);

    /// The bus of the hart.
    fn bus(&mut self) -> &mut A;
}

} // verus!
