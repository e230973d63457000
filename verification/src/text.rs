//! The text of the diagnostic renderings: digits, and the layout of a
//! structure with named fields.

use vstd::prelude::*;
use vstd::string::*;

verus! {

/// The character that stands for the digit `d`, in upper case from ten on.
pub open spec fn digit(d: u8) -> char
    recommends
        d < 16,
{
    match d {
        0 => '0',
        1 => '1',
        2 => '2',
        3 => '3',
        4 => '4',
        5 => '5',
        6 => '6',
        7 => '7',
        8 => '8',
        9 => '9',
        10 => 'A',
        11 => 'B',
        12 => 'C',
        13 => 'D',
        14 => 'E',
        _ => 'F',
    }
}

/// The `width` lowest digits of `value` in the given base, the most
/// significant one first.
pub open spec fn digits(value: nat, base: nat, width: nat) -> Seq<char>
    recommends
        2 <= base <= 16,
    decreases width,
{
    if width == 0 {
        Seq::empty()
    } else {
        digits(value / base, base, (width - 1) as nat).push(digit((value % base) as u8))
    }
}

/// `value` in decimal, without leading zeros.
pub open spec fn decimal(value: nat) -> Seq<char>
    decreases value,
{
    if value < 10 {
        seq![digit(value as u8)]
    } else {
        decimal(value / 10).push(digit((value % 10) as u8))
    }
}

/// `value` in binary with `width` digits, after `0b`.
pub open spec fn binary_text(value: nat, width: nat) -> Seq<char> {
    "0b"@ + digits(value, 2, width)
}

/// `value` in upper-case hexadecimal with `width` digits, after `0x`.
pub open spec fn hex_text(value: nat, width: nat) -> Seq<char> {
    "0x"@ + digits(value, 16, width)
}

/// One field of a structure's rendering. On one line the fields follow ` { `
/// and are separated by `, `; in the pretty form each field has a line of its
/// own, indented by four spaces and ended by a comma.
pub open spec fn field_text(name: Seq<char>, value: Seq<char>, first: bool, pretty: bool) -> Seq<
    char,
> {
    if pretty {
        (if first {
            " {\n"@
        } else {
            Seq::empty()
        }) + "    "@ + name + ": "@ + value + ",\n"@
    } else {
        (if first {
            " { "@
        } else {
            ", "@
        }) + name + ": "@ + value
    }
}

/// The end of a structure's rendering, after its last field.
pub open spec fn closing_text(pretty: bool) -> Seq<char> {
    if pretty {
        "}"@
    } else {
        " }"@
    }
}

/// A field after the first that holds a code of `width` bits, in binary.
pub open spec fn code_field_text(name: Seq<char>, code: int, width: nat, pretty: bool) -> Seq<
    char,
> {
    field_text(name, binary_text(code as nat, width), false, pretty)
}

/// A field after the first that holds a 32-bit word, in hexadecimal.
pub open spec fn word_field_text(name: Seq<char>, word: int, pretty: bool) -> Seq<char> {
    field_text(name, hex_text(word as nat, 8), false, pretty)
}

/// The text of one digit.
fn digit_str(d: u8) -> (s: &'static str)
    requires
        d < 16,
    ensures
        s@ == seq![digit(d)],
{
    proof {
        reveal_strlit("0");
        reveal_strlit("1");
        reveal_strlit("2");
        reveal_strlit("3");
        reveal_strlit("4");
        reveal_strlit("5");
        reveal_strlit("6");
        reveal_strlit("7");
        reveal_strlit("8");
        reveal_strlit("9");
        reveal_strlit("A");
        reveal_strlit("B");
        reveal_strlit("C");
        reveal_strlit("D");
        reveal_strlit("E");
        reveal_strlit("F");
    }
    let s = match d {
        0 => "0",
        1 => "1",
        2 => "2",
        3 => "3",
        4 => "4",
        5 => "5",
        6 => "6",
        7 => "7",
        8 => "8",
        9 => "9",
        10 => "A",
        11 => "B",
        12 => "C",
        13 => "D",
        14 => "E",
        _ => "F",
    };
    assert(s@ =~= seq![digit(d)]);
    s
}

/// Appends the `width` lowest digits of `value` in the given base.
pub(crate) fn push_digits(text: &mut String, value: u32, base: u32, width: u32)
    requires
        2 <= base <= 16,
    ensures
        final(text)@ == old(text)@ + digits(value as nat, base as nat, width as nat),
    decreases width,
{
    if width > 0 {
        push_digits(text, value / base, base, width - 1);
        text.append(digit_str((value % base) as u8));
        assert(text@ =~= old(text)@ + digits(value as nat, base as nat, width as nat));
    }
}

/// Appends `value` in decimal.
pub(crate) fn push_decimal(text: &mut String, value: u32)
    ensures
        final(text)@ == old(text)@ + decimal(value as nat),
    decreases value,
{
    if value >= 10 {
        push_decimal(text, value / 10);
    }
    text.append(digit_str((value % 10) as u8));
    assert(text@ =~= old(text)@ + decimal(value as nat));
}

/// `value` in upper-case hexadecimal with `width` digits, after `0x`.
pub(crate) fn hex_string(value: u32, width: u32) -> (s: String)
    ensures
        s@ == hex_text(value as nat, width as nat),
{
    let mut text = String::from_str("0x");
    push_digits(&mut text, value, 16, width);
    text
}

/// Appends one field of a structure's rendering.
pub(crate) fn push_field(text: &mut String, name: &str, value: &str, first: bool, pretty: bool)
    ensures
        final(text)@ == old(text)@ + field_text(name@, value@, first, pretty),
{
    if pretty {
        if first {
            text.append(" {\n");
        }
        text.append("    ");
        text.append(name);
        text.append(": ");
        text.append(value);
        text.append(",\n");
    } else {
        if first {
            text.append(" { ");
        } else {
            text.append(", ");
        }
        text.append(name);
        text.append(": ");
        text.append(value);
    }
    assert(text@ =~= old(text)@ + field_text(name@, value@, first, pretty));
}

/// Appends a field after the first that holds a code of `width` bits.
pub(crate) fn push_code_field(text: &mut String, name: &str, code: u8, width: u32, pretty: bool)
    ensures
        final(text)@ == old(text)@ + code_field_text(name@, code as int, width as nat, pretty),
{
    let mut value = String::from_str("0b");
    push_digits(&mut value, code as u32, 2, width);
    push_field(text, name, value.as_str(), false, pretty);
}

/// Appends a field after the first that holds a 32-bit word.
pub(crate) fn push_word_field(text: &mut String, name: &str, word: u32, pretty: bool)
    ensures
        final(text)@ == old(text)@ + word_field_text(name@, word as int, pretty),
{
    push_field(text, name, hex_string(word, 8).as_str(), false, pretty);
}

/// Appends the end of a structure's rendering.
pub(crate) fn push_closing(text: &mut String, pretty: bool)
    ensures
        final(text)@ == old(text)@ + closing_text(pretty),
{
    if pretty {
        text.append("}");
    } else {
        text.append(" }");
    }
}

} // verus!
