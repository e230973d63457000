use rysk::{Instruction, Register};

// srai x17,x7,19
#[test]
fn r_type_fields_of_srai() {
    let r = Instruction::new(0x4133d893);
    assert_eq!(r.opcode(), 0b0010011);
    assert_eq!(r.funct3(), 0b101);
    assert_eq!(r.funct7(), 0b0100000);
    assert!(r.rd() == Register::X17);
    assert!(r.rs1() == Register::X7);
    assert!(r.rs2() == Register::X19);
}

// jalr x31,1234(x11)
#[test]
fn i_type_fields_of_jalr() {
    let i = Instruction::new(0x4d258fe7);
    assert_eq!(i.opcode(), 0b1100111);
    assert_eq!(i.funct3(), 0b000);
    assert!(i.rd() == Register::X31);
    assert!(i.rs1() == Register::X11);
    assert_eq!(i.i_immediate(), 1234);
}

// sw x27,2047(x31)
#[test]
fn s_type_fields_of_sw() {
    let s = Instruction::new(0x7fbfafa3);
    assert_eq!(s.opcode(), 0b0100011);
    assert_eq!(s.funct3(), 0b010);
    assert!(s.rs1() == Register::X31);
    assert!(s.rs2() == Register::X27);
    assert_eq!(s.s_immediate(), 0x7FF);
}

// bgeu x10,x8,-4
#[test]
fn b_type_fields_of_bgeu() {
    let b = Instruction::new(0xfe857ee3);
    assert_eq!(b.opcode(), 0b1100011);
    assert_eq!(b.funct3(), 0b111);
    assert!(b.rs1() == Register::X10);
    assert!(b.rs2() == Register::X8);
    assert_eq!(b.b_immediate(), -4i32 as u32);
}

// lui x15,0xDEAD4
#[test]
fn u_type_fields_of_lui() {
    let u = Instruction::new(0xdead47b7);
    assert_eq!(u.opcode(), 0b0110111);
    assert!(u.rd() == Register::X15);
    assert_eq!(u.u_immediate(), 0xDEAD_4000);
}

// jal x7,0xDEAD4
#[test]
fn j_type_fields_of_jal() {
    let j = Instruction::new(0x2d5de3ef);
    assert_eq!(j.opcode(), 0b1101111);
    assert!(j.rd() == Register::X7);
    assert_eq!(j.j_immediate(), 0xDEAD4);
}

#[test]
fn every_immediate_of_one_word() {
    let w = Instruction::new(0xdead47b7);
    assert_eq!(w.i_immediate(), 0xFFFF_FDEA);
    assert_eq!(w.s_immediate(), 0xFFFF_FDEF);
    assert_eq!(w.b_immediate(), 0xFFFF_FDEE);
    assert_eq!(w.u_immediate(), 0xDEAD_4000);
    assert_eq!(w.j_immediate(), 0xFFFD_45EA);
}

#[test]
fn all_ones_and_all_zeros() {
    let ones = Instruction::new(0xFFFF_FFFF);
    assert!(ones.standard());
    assert_eq!(ones.opcode(), 0x7F);
    assert_eq!(ones.funct3(), 7);
    assert_eq!(ones.funct7(), 0x7F);
    assert!(ones.rd() == Register::X31);
    assert!(ones.rs1() == Register::X31);
    assert!(ones.rs2() == Register::X31);
    assert_eq!(ones.i_immediate(), 0xFFFF_FFFF);
    assert_eq!(ones.s_immediate(), 0xFFFF_FFFF);
    assert_eq!(ones.b_immediate(), 0xFFFF_FFFE);
    assert_eq!(ones.u_immediate(), 0xFFFF_F000);
    assert_eq!(ones.j_immediate(), 0xFFFF_FFFE);

    let zeros = Instruction::new(0);
    assert!(zeros.compressed());
    assert_eq!(zeros.op(), 0);
    assert_eq!(zeros.compressed_funct2(), 0);
    assert_eq!(zeros.compressed_funct3(), 0);
    assert_eq!(zeros.compressed_funct4(), 0);
    assert_eq!(zeros.compressed_funct6(), 0);
    assert!(zeros.compressed_rs1() == Register::X0);
    assert!(zeros.compressed_rs2() == Register::X0);
    assert!(zeros.crs1() == Register::X8);
    assert!(zeros.crs2() == Register::X8);
}
