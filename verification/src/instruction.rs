use vstd::prelude::*;
use vstd::string::*;
use crate::immediate::{b_type, i_type, j_type, s_type, u_type};
use crate::register::Register;
use crate::text::{
    closing_text, code_field_text, field_text, hex_string, hex_text, push_closing,
    push_code_field, push_field, push_word_field, word_field_text,
};
use crate::word::{as_pattern, bit, bits, ones, placed};

verus! {

/// A RISC-V machine instruction, standard (32 bits) or compressed (16 bits).
///
/// The view of an instruction is its encoding. A compressed instruction is
/// held in the low 16 bits. Bits [1:0] tell the two kinds apart; an accessor
/// for a field of the other kind returns the bits it is documented to return,
/// which then mean nothing.
#[derive(Clone, Copy)]
pub struct Instruction(u32);

impl View for Instruction {
    type V = u32;

    closed spec fn view(&self) -> u32 {
        self.0
    }
}

impl Instruction {
    /// Whether the encoding is a compressed one: bits [1:0] are not `0b11`.
    pub open spec fn spec_compressed(self) -> bool {
        bits(self@, 1, 0) != 0b11
    }

    /// Whether the encoding is a standard one: bits [1:0] are `0b11`.
    pub open spec fn spec_standard(self) -> bool {
        bits(self@, 1, 0) == 0b11
    }

    /// Creates an instruction from its 32-bit encoding.
    pub fn new(instruction: u32) -> (r: Self)
        ensures
            r@ == instruction,
    {
        Self(instruction)
    }

    /// Takes two instruction parcels in fetch order and returns the
    /// instruction that starts with the first one, and whether it is a
    /// compressed one. A compressed instruction is the first parcel alone,
    /// whatever the second one holds. A standard one has the first parcel as
    /// its low half and the second as its high half.
    pub fn from_parcels(parcels: [u16; 2]) -> (r: (Self, bool))
        ensures
            r.1 == (bits(parcels[0] as u32, 1, 0) != 0b11),
            r.1 ==> r.0@ == parcels[0],
            !r.1 ==> r.0@ == parcels[0] + placed(parcels[1] as int, 16),
            r.1 == r.0.compressed(),
    {
        let low = parcels[0];
        let high = parcels[1];
        assert((low & 0b11 != 0b11) == (bits(low as u32, 1, 0) != 0b11)) by (bit_vector);
        if low & 0b11 != 0b11 {
            (Self(low as u32), true)
        } else {
            let word = (low as u32) | ((high as u32) << 16);
            assert({
                &&& word == low + placed(high as int, 16)
                &&& bits(word, 1, 0) == bits(low as u32, 1, 0)
            }) by (bit_vector)
                requires
                    word == (low as u32) | ((high as u32) << 16),
            ;
            (Self(word), false)
        }
    }

    /// Returns `true` if the instruction is a compressed 16-bit instruction.
    #[verifier::when_used_as_spec(spec_compressed)]
    pub fn compressed(self) -> (c: bool)
        ensures
            c == self.spec_compressed(),
    {
        let word = self.0;
        assert((word & 0b11 != 0b11) == (bits(word, 1, 0) != 0b11)) by (bit_vector);
        word & 0b11 != 0b11
    }

    /// Returns `true` if the instruction is a standard 32-bit instruction.
    #[verifier::when_used_as_spec(spec_standard)]
    pub fn standard(self) -> (s: bool)
        ensures
            s == self.spec_standard(),
    {
        let word = self.0;
        assert((word & 0b11 == 0b11) == (bits(word, 1, 0) == 0b11)) by (bit_vector);
        word & 0b11 == 0b11
    }

    /// Every encoding is either compressed or standard, and never both.
    pub proof fn lemma_compressed_or_standard(self)
        ensures
            self.compressed() != self.standard(),
    {
    }

    /// Returns the standard opcode, bits [6:0].
    pub fn opcode(self) -> (op: u8)
        ensures
            op == bits(self@, 6, 0),
    {
        let word = self.0;
        assert((word & 0b0111_1111) as u8 == bits(word, 6, 0)) by (bit_vector);
        (word & 0b0111_1111) as u8
    }

    /// Returns the compressed opcode, bits [1:0].
    pub fn op(self) -> (op: u8)
        ensures
            op == bits(self@, 1, 0),
    {
        let word = self.0;
        assert((word & 0b0000_0011) as u8 == bits(word, 1, 0)) by (bit_vector);
        (word & 0b0000_0011) as u8
    }

    /// Returns the standard funct3, bits [14:12].
    pub fn funct3(self) -> (f: u8)
        ensures
            f == bits(self@, 14, 12),
    {
        let word = self.0;
        assert(((word & 0x0000_7000) >> 12) as u8 == bits(word, 14, 12)) by (bit_vector);
        ((word & 0x0000_7000) >> 12) as u8
    }

    /// Returns the standard funct7, bits [31:25].
    pub fn funct7(self) -> (f: u8)
        ensures
            f == bits(self@, 31, 25),
    {
        let word = self.0;
        assert(((word & 0xFE00_0000) >> 25) as u8 == bits(word, 31, 25)) by (bit_vector);
        ((word & 0xFE00_0000) >> 25) as u8
    }

    /// Returns the compressed funct2, bits [6:5].
    pub fn compressed_funct2(self) -> (f: u8)
        ensures
            f == bits(self@, 6, 5),
    {
        let word = self.0;
        assert(((word & 0x0060) >> 5) as u8 == bits(word, 6, 5)) by (bit_vector);
        ((word & 0x0060) >> 5) as u8
    }

    /// Returns the compressed funct3, bits [15:13].
    pub fn compressed_funct3(self) -> (f: u8)
        ensures
            f == bits(self@, 15, 13),
    {
        let word = self.0;
        assert(((word & 0xE000) >> 13) as u8 == bits(word, 15, 13)) by (bit_vector);
        ((word & 0xE000) >> 13) as u8
    }

    /// Returns the compressed funct4, bits [15:12].
    pub fn compressed_funct4(self) -> (f: u8)
        ensures
            f == bits(self@, 15, 12),
    {
        let word = self.0;
        assert(((word & 0xF000) >> 12) as u8 == bits(word, 15, 12)) by (bit_vector);
        ((word & 0xF000) >> 12) as u8
    }

    /// Returns the compressed funct6, bits [15:10].
    pub fn compressed_funct6(self) -> (f: u8)
        ensures
            f == bits(self@, 15, 10),
    {
        let word = self.0;
        assert(((word & 0xFC00) >> 10) as u8 == bits(word, 15, 10)) by (bit_vector);
        ((word & 0xFC00) >> 10) as u8
    }

    /// Returns the destination register, standard or compressed: bits [11:7].
    pub fn rd(self) -> (r: Register)
        ensures
            r@ == bits(self@, 11, 7),
    {
        let word = self.0;
        let num = ((word & 0x0000_0F80) >> 7) as u8;
        assert(num == bits(word, 11, 7) && num <= 31) by (bit_vector)
            requires
                num == ((word & 0x0000_0F80) >> 7) as u8,
        ;
        Register::new_unchecked(num)
    }

    /// Returns the first standard source register, bits [19:15].
    pub fn rs1(self) -> (r: Register)
        ensures
            r@ == bits(self@, 19, 15),
    {
        let word = self.0;
        let num = ((word & 0x000F_8000) >> 15) as u8;
        assert(num == bits(word, 19, 15) && num <= 31) by (bit_vector)
            requires
                num == ((word & 0x000F_8000) >> 15) as u8,
        ;
        Register::new_unchecked(num)
    }

    /// Returns the second standard source register, bits [24:20].
    pub fn rs2(self) -> (r: Register)
        ensures
            r@ == bits(self@, 24, 20),
    {
        let word = self.0;
        let num = ((word & 0x01F0_0000) >> 20) as u8;
        assert(num == bits(word, 24, 20) && num <= 31) by (bit_vector)
            requires
                num == ((word & 0x01F0_0000) >> 20) as u8,
        ;
        Register::new_unchecked(num)
    }

    /// Returns the first compressed full-sized source register, bits [11:7].
    pub fn compressed_rs1(self) -> (r: Register)
        ensures
            r@ == bits(self@, 11, 7),
    {
        let word = self.0;
        let num = ((word & 0x0F80) >> 7) as u8;
        assert(num == bits(word, 11, 7) && num <= 31) by (bit_vector)
            requires
                num == ((word & 0x0F80) >> 7) as u8,
        ;
        Register::new_unchecked(num)
    }

    /// Returns the second compressed full-sized source register, bits [6:2].
    pub fn compressed_rs2(self) -> (r: Register)
        ensures
            r@ == bits(self@, 6, 2),
    {
        let word = self.0;
        let num = ((word & 0x007C) >> 2) as u8;
        assert(num == bits(word, 6, 2) && num <= 31) by (bit_vector)
            requires
                num == ((word & 0x007C) >> 2) as u8,
        ;
        Register::new_unchecked(num)
    }

    /// Returns the first compressed half-sized source register: the three
    /// bits [9:7] name one of the registers `X8` to `X15`.
    pub fn crs1(self) -> (r: Register)
        ensures
            r@ == bits(self@, 9, 7) + 8,
            8 <= r@ <= 15,
    {
        let word = self.0;
        let raw = ((word & 0x0380) >> 7) as u8;
        assert(raw == bits(word, 9, 7) && raw <= 7) by (bit_vector)
            requires
                raw == ((word & 0x0380) >> 7) as u8,
        ;
        Register::new_unchecked(raw + 8)
    }

    /// Returns the second compressed half-sized source register: the three
    /// bits [4:2] name one of the registers `X8` to `X15`.
    pub fn crs2(self) -> (r: Register)
        ensures
            r@ == bits(self@, 4, 2) + 8,
            8 <= r@ <= 15,
    {
        let word = self.0;
        let raw = ((word & 0x001C) >> 2) as u8;
        assert(raw == bits(word, 4, 2) && raw <= 7) by (bit_vector)
            requires
                raw == ((word & 0x001C) >> 2) as u8,
        ;
        Register::new_unchecked(raw + 8)
    }

    /// Returns the I-type immediate, sign-extended to 32 bits: bit 31 of the
    /// encoding fills the bits from bit 11 up.
    pub fn i_immediate(self) -> (imm: u32)
        ensures
            imm == as_pattern(i_type(self@)),
            bit(self@, 31) == 1 ==> bits(imm, 31, 11) == ones(21),
            bit(self@, 31) == 0 ==> bits(imm, 31, 11) == 0,
    {
        let word = self.0;
        let imm = ((word as i32) >> 20) as u32;
        assert({
            &&& imm == as_pattern(i_type(word))
            &&& bit(word, 31) == 1 ==> bits(imm, 31, 11) == ones(21)
            &&& bit(word, 31) == 0 ==> bits(imm, 31, 11) == 0
        }) by (bit_vector)
            requires
                imm == ((word as i32) >> 20) as u32,
        ;
        imm
    }

    /// Returns the S-type immediate, sign-extended to 32 bits: bit 31 of the
    /// encoding fills the bits from bit 11 up.
    pub fn s_immediate(self) -> (imm: u32)
        ensures
            imm == as_pattern(s_type(self@)),
            bit(self@, 31) == 1 ==> bits(imm, 31, 11) == ones(21),
            bit(self@, 31) == 0 ==> bits(imm, 31, 11) == 0,
    {
        let word = self.0;
        let imm = (((word as i32) >> 20) as u32 & !0b1_1111) | ((word >> 7) & 0b1_1111);
        assert({
            &&& imm == as_pattern(s_type(word))
            &&& bit(word, 31) == 1 ==> bits(imm, 31, 11) == ones(21)
            &&& bit(word, 31) == 0 ==> bits(imm, 31, 11) == 0
        }) by (bit_vector)
            requires
                imm == (((word as i32) >> 20) as u32 & !0b1_1111) | ((word >> 7) & 0b1_1111),
        ;
        imm
    }

    /// Returns the B-type immediate, sign-extended to 32 bits: bit 31 of the
    /// encoding fills the bits from bit 12 up, and bit 0 is zero.
    pub fn b_immediate(self) -> (imm: u32)
        ensures
            imm == as_pattern(b_type(self@)),
            bit(self@, 31) == 1 ==> bits(imm, 31, 12) == ones(20),
            bit(self@, 31) == 0 ==> bits(imm, 31, 12) == 0,
            bit(imm, 0) == 0,
    {
        let word = self.0;
        let imm = (((word as i32) >> 19) as u32 & 0xFFFF_F000)
            | ((word << 4) & 0b1000_0000_0000)
            | ((word >> 20) & 0b0111_1110_0000)
            | ((word >> 7) & 0b0000_0001_1110);
        assert({
            &&& imm == as_pattern(b_type(word))
            &&& bit(word, 31) == 1 ==> bits(imm, 31, 12) == ones(20)
            &&& bit(word, 31) == 0 ==> bits(imm, 31, 12) == 0
            &&& bit(imm, 0) == 0
        }) by (bit_vector)
            requires
                imm == (((word as i32) >> 19) as u32 & 0xFFFF_F000)
                    | ((word << 4) & 0b1000_0000_0000)
                    | ((word >> 20) & 0b0111_1110_0000)
                    | ((word >> 7) & 0b0000_0001_1110),
        ;
        imm
    }

    /// Returns the U-type immediate: the top 20 bits of the encoding over
    /// twelve zero bits.
    pub fn u_immediate(self) -> (imm: u32)
        ensures
            imm == u_type(self@),
            bits(imm, 31, 12) == bits(self@, 31, 12),
            bits(imm, 11, 0) == 0,
    {
        let word = self.0;
        let imm = word & 0xFFFF_F000;
        assert({
            &&& imm == u_type(word)
            &&& bits(imm, 31, 12) == bits(word, 31, 12)
            &&& bits(imm, 11, 0) == 0
        }) by (bit_vector)
            requires
                imm == word & 0xFFFF_F000,
        ;
        imm
    }

    /// Returns the J-type immediate, sign-extended to 32 bits: bit 31 of the
    /// encoding fills the bits from bit 20 up, and bit 0 is zero.
    pub fn j_immediate(self) -> (imm: u32)
        ensures
            imm == as_pattern(j_type(self@)),
            bit(self@, 31) == 1 ==> bits(imm, 31, 20) == ones(12),
            bit(self@, 31) == 0 ==> bits(imm, 31, 20) == 0,
            bit(imm, 0) == 0,
    {
        let word = self.0;
        let imm = (((word as i32) >> 11) as u32 & 0xFFF0_0000)
            | (word & 0x000F_F000)
            | ((word >> 9) & 0b1000_0000_0000)
            | ((word >> 20) & 0b0111_1111_1110);
        assert({
            &&& imm == as_pattern(j_type(word))
            &&& bit(word, 31) == 1 ==> bits(imm, 31, 20) == ones(12)
            &&& bit(word, 31) == 0 ==> bits(imm, 31, 20) == 0
            &&& bit(imm, 0) == 0
        }) by (bit_vector)
            requires
                imm == (((word as i32) >> 11) as u32 & 0xFFF0_0000)
                    | (word & 0x000F_F000)
                    | ((word >> 9) & 0b1000_0000_0000)
                    | ((word >> 20) & 0b0111_1111_1110),
        ;
        imm
    }
}

impl Instruction {
    /// The rendering of the encoding itself: the kind, and the encoding in
    /// hexadecimal, with four digits if compressed and eight if standard.
    pub open spec fn encoding_text(self) -> Seq<char> {
        if self.compressed() {
            "Compressed("@ + hex_text(bits(self@, 15, 0) as nat, 4) + ")"@
        } else {
            "Standard("@ + hex_text(self@ as nat, 8) + ")"@
        }
    }

    /// The fields of a compressed instruction as they are rendered, after the
    /// encoding: the codes in binary, the registers by name.
    pub open spec fn compressed_fields_text(self, pretty: bool) -> Seq<char> {
        code_field_text("opcode"@, bits(self@, 1, 0), 2, pretty)
            + code_field_text("funct2"@, bits(self@, 6, 5), 2, pretty)
            + code_field_text("funct3"@, bits(self@, 15, 13), 3, pretty)
            + code_field_text("funct4"@, bits(self@, 15, 12), 4, pretty)
            + code_field_text("funct6"@, bits(self@, 15, 10), 6, pretty)
            + Register::field_text("rd_rs1"@, bits(self@, 11, 7), pretty)
            + Register::field_text("rs2"@, bits(self@, 6, 2), pretty)
            + Register::field_text("crd_crs1'"@, bits(self@, 9, 7) + 8, pretty)
            + Register::field_text("crd_crs2'"@, bits(self@, 4, 2) + 8, pretty)
    }

    /// The fields of a standard instruction as they are rendered, after the
    /// encoding: the codes in binary, the registers by name, the immediates
    /// in hexadecimal.
    pub open spec fn standard_fields_text(self, pretty: bool) -> Seq<char> {
        code_field_text("opcode"@, bits(self@, 6, 0), 7, pretty)
            + code_field_text("funct3"@, bits(self@, 14, 12), 3, pretty)
            + code_field_text("funct7"@, bits(self@, 31, 25), 7, pretty)
            + Register::field_text("rd"@, bits(self@, 11, 7), pretty)
            + Register::field_text("rs1"@, bits(self@, 19, 15), pretty)
            + Register::field_text("rs2"@, bits(self@, 24, 20), pretty)
            + word_field_text("i_immediate"@, as_pattern(i_type(self@)), pretty)
            + word_field_text("s_immediate"@, as_pattern(s_type(self@)), pretty)
            + word_field_text("b_immediate"@, as_pattern(b_type(self@)), pretty)
            + word_field_text("u_immediate"@, u_type(self@), pretty)
            + word_field_text("j_immediate"@, as_pattern(j_type(self@)), pretty)
    }

    /// The rendering of the instruction for diagnostics, on one line or in
    /// the pretty form: a structure named `Instruction` whose fields are the
    /// encoding and then every field that the kind of the encoding has.
    pub open spec fn debug_text(self, pretty: bool) -> Seq<char> {
        let fields = if self.compressed() {
            self.compressed_fields_text(pretty)
        } else {
            self.standard_fields_text(pretty)
        };
        "Instruction"@ + field_text("value"@, self.encoding_text(), true, pretty) + fields
            + closing_text(pretty)
    }

    /// Renders the encoding itself: `Compressed(0x....)` with the low 16
    /// bits, or `Standard(0x........)`.
    fn encoding_string(self) -> (s: String)
        ensures
            s@ == self.encoding_text(),
    {
        let word = self.0;
        if self.compressed() {
            assert((word & 0xFFFF) == bits(word, 15, 0)) by (bit_vector);
            let mut text = String::from_str("Compressed(");
            text.append(hex_string(word & 0xFFFF, 4).as_str());
            text.append(")");
            text
        } else {
            let mut text = String::from_str("Standard(");
            text.append(hex_string(word, 8).as_str());
            text.append(")");
            text
        }
    }

    /// Renders the fields of a compressed instruction.
    fn compressed_fields_string(self, pretty: bool) -> (s: String)
        ensures
            s@ == self.compressed_fields_text(pretty),
    {
        let mut text = String::new();
        push_code_field(&mut text, "opcode", self.op(), 2, pretty);
        push_code_field(&mut text, "funct2", self.compressed_funct2(), 2, pretty);
        push_code_field(&mut text, "funct3", self.compressed_funct3(), 3, pretty);
        push_code_field(&mut text, "funct4", self.compressed_funct4(), 4, pretty);
        push_code_field(&mut text, "funct6", self.compressed_funct6(), 6, pretty);
        self.compressed_rs1().push_field(&mut text, "rd_rs1", pretty);
        self.compressed_rs2().push_field(&mut text, "rs2", pretty);
        self.crs1().push_field(&mut text, "crd_crs1'", pretty);
        self.crs2().push_field(&mut text, "crd_crs2'", pretty);
        assert(text@ =~= self.compressed_fields_text(pretty));
        text
    }

    /// Renders the fields of a standard instruction.
    fn standard_fields_string(self, pretty: bool) -> (s: String)
        ensures
            s@ == self.standard_fields_text(pretty),
    {
        let mut text = String::new();
        push_code_field(&mut text, "opcode", self.opcode(), 7, pretty);
        push_code_field(&mut text, "funct3", self.funct3(), 3, pretty);
        push_code_field(&mut text, "funct7", self.funct7(), 7, pretty);
        self.rd().push_field(&mut text, "rd", pretty);
        self.rs1().push_field(&mut text, "rs1", pretty);
        self.rs2().push_field(&mut text, "rs2", pretty);
        push_word_field(&mut text, "i_immediate", self.i_immediate(), pretty);
        push_word_field(&mut text, "s_immediate", self.s_immediate(), pretty);
        push_word_field(&mut text, "b_immediate", self.b_immediate(), pretty);
        push_word_field(&mut text, "u_immediate", self.u_immediate(), pretty);
        push_word_field(&mut text, "j_immediate", self.j_immediate(), pretty);
        assert(text@ =~= self.standard_fields_text(pretty));
        text
    }

    /// Renders the instruction for diagnostics, on one line or, if `pretty`,
    /// with one field per line.
    pub fn debug_string(self, pretty: bool) -> (s: String)
        ensures
            s@ == self.debug_text(pretty),
    {
        let mut text = String::from_str("Instruction");
        push_field(&mut text, "value", self.encoding_string().as_str(), true, pretty);
        if self.compressed() {
            text.append(self.compressed_fields_string(pretty).as_str());
        } else {
            text.append(self.standard_fields_string(pretty).as_str());
        }
        push_closing(&mut text, pretty);
        text
    }
}

} // verus!
