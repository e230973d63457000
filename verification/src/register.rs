use vstd::prelude::*;
use vstd::string::*;
use crate::text::{decimal, field_text, push_decimal, push_field};

verus! {

/// One of the 32 integer registers of a hart.
///
/// The view of a register is its number, `0` for `X0` up to `31` for `X31`.
#[derive(Clone, Copy, PartialEq, Eq, Structural)]
pub enum Register {
    X0,
    X1,
    X2,
    X3,
    X4,
    X5,
    X6,
    X7,
    X8,
    X9,
    X10,
    X11,
    X12,
    X13,
    X14,
    X15,
    X16,
    X17,
    X18,
    X19,
    X20,
    X21,
    X22,
    X23,
    X24,
    X25,
    X26,
    X27,
    X28,
    X29,
    X30,
    X31,
}

impl View for Register {
    type V = nat;

    open spec fn view(&self) -> nat {
        match *self {
            Register::X0 => 0,
            Register::X1 => 1,
            Register::X2 => 2,
            Register::X3 => 3,
            Register::X4 => 4,
            Register::X5 => 5,
            Register::X6 => 6,
            Register::X7 => 7,
            Register::X8 => 8,
            Register::X9 => 9,
            Register::X10 => 10,
            Register::X11 => 11,
            Register::X12 => 12,
            Register::X13 => 13,
            Register::X14 => 14,
            Register::X15 => 15,
            Register::X16 => 16,
            Register::X17 => 17,
            Register::X18 => 18,
            Register::X19 => 19,
            Register::X20 => 20,
            Register::X21 => 21,
            Register::X22 => 22,
            Register::X23 => 23,
            Register::X24 => 24,
            Register::X25 => 25,
            Register::X26 => 26,
            Register::X27 => 27,
            Register::X28 => 28,
            Register::X29 => 29,
            Register::X30 => 30,
            Register::X31 => 31,
        }
    }
}

impl Register {
    /// Converts a register number to the register, or `None` if `num > 31`.
    pub fn new(num: u8) -> (r: Option<Self>)
        ensures
            r is Some <==> num <= 31,
            r matches Some(reg) ==> reg@ == num,
    {
        if num > 31 {
            None
        } else {
            Some(Self::new_unchecked(num))
        }
    }

    /// Converts a register number that is known to be at most 31 to the
    /// register. Callers that cannot show the bound use [`Register::new`].
    pub fn new_unchecked(num: u8) -> (r: Self)
        requires
            num <= 31,
        ensures
            r@ == num,
    {
        match num {
            0 => Register::X0,
            1 => Register::X1,
            2 => Register::X2,
            3 => Register::X3,
            4 => Register::X4,
            5 => Register::X5,
            6 => Register::X6,
            7 => Register::X7,
            8 => Register::X8,
            9 => Register::X9,
            10 => Register::X10,
            11 => Register::X11,
            12 => Register::X12,
            13 => Register::X13,
            14 => Register::X14,
            15 => Register::X15,
            16 => Register::X16,
            17 => Register::X17,
            18 => Register::X18,
            19 => Register::X19,
            20 => Register::X20,
            21 => Register::X21,
            22 => Register::X22,
            23 => Register::X23,
            24 => Register::X24,
            25 => Register::X25,
            26 => Register::X26,
            27 => Register::X27,
            28 => Register::X28,
            29 => Register::X29,
            30 => Register::X30,
            _ => Register::X31,
        }
    }

    /// The number of the register.
    pub fn number(self) -> (num: u8)
        ensures
            num == self@,
    {
        self as u8
    }

    /// The name of the register with the given number: `x`, then the number
    /// in decimal.
    pub open spec fn name_text(number: nat) -> Seq<char> {
        "x"@ + decimal(number)
    }

    /// The rendering of the register for diagnostics: its name.
    pub open spec fn debug_text(self) -> Seq<char> {
        Self::name_text(self@)
    }

    /// A field after the first, in the rendering of a structure, that holds
    /// the register with the given number.
    pub open spec fn field_text(name: Seq<char>, number: int, pretty: bool) -> Seq<char> {
        field_text(name, Self::name_text(number as nat), false, pretty)
    }

    /// Appends a field after the first that holds the register.
    pub(crate) fn push_field(self, text: &mut String, name: &str, pretty: bool)
        ensures
            final(text)@ == old(text)@ + Self::field_text(name@, self@ as int, pretty),
    {
        push_field(text, name, self.debug_string().as_str(), false, pretty);
    }

    /// Renders the register for diagnostics, as `x0` to `x31`.
    pub fn debug_string(self) -> (s: String)
        ensures
            s@ == self.debug_text(),
    {
        let mut text = String::from_str("x");
        push_decimal(&mut text, self.number() as u32);
        text
    }

    /// A register number never exceeds 31.
    pub proof fn lemma_number_in_range(self)
        ensures
            self@ <= 31,
    {
    }

    /// Registers are equal exactly when their numbers are equal.
    pub proof fn lemma_equal_iff_same_number(self, other: Self)
        ensures
            self == other <==> self@ == other@,
    {
    }
}

} // verus!
