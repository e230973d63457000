use rysk::Instruction;

#[test]
fn standard_parcels_combine_little_endian() {
    let (i, compressed) = Instruction::from_parcels([0x8fe7, 0x4d25]);
    assert!(!compressed);
    assert!(i.standard());
    assert!(!i.compressed());
    assert_eq!(i.opcode(), 0b1100111);
    assert_eq!(i.i_immediate(), 1234);
    assert_eq!(i.u_immediate(), 0x4d25_8000);
}

#[test]
fn standard_parcels_give_the_same_as_the_whole_word() {
    let (i, compressed) = Instruction::from_parcels([0x7ee3, 0xfe85]);
    let whole = Instruction::new(0xfe857ee3);
    assert!(!compressed);
    assert_eq!(i.b_immediate(), whole.b_immediate());
    assert_eq!(i.funct7(), whole.funct7());
    assert_eq!(i.debug_string(false), whole.debug_string(false));
}

#[test]
fn compressed_parcel_ignores_the_second_parcel() {
    for second in [0x0000u16, 0x0001, 0x4d25, 0x8000, 0xFFFF] {
        let (i, compressed) = Instruction::from_parcels([0x4581, second]);
        assert!(compressed);
        assert!(i.compressed());
        assert!(!i.standard());
        assert_eq!(i.debug_string(false), Instruction::new(0x4581).debug_string(false));
        // The bits above the first parcel are zero.
        assert_eq!(i.funct7(), 0);
        assert_eq!(i.u_immediate(), 0x4000);
    }
}

#[test]
fn flag_follows_the_low_two_bits_of_the_first_parcel() {
    for first in [0x0000u16, 0x0001, 0x0002, 0xFFFC, 0xFFFD, 0xFFFE, 0x4581] {
        let (_, compressed) = Instruction::from_parcels([first, 0xFFFF]);
        assert!(compressed);
    }
    for first in [0x0003u16, 0x0007, 0xFFFF, 0x8fe7] {
        let (_, compressed) = Instruction::from_parcels([first, 0x0000]);
        assert!(!compressed);
    }
}

#[test]
fn flag_follows_the_low_two_bits_for_every_first_parcel() {
    for first in 0..=u16::MAX {
        let (i, compressed) = Instruction::from_parcels([first, 0xA5A5]);
        assert_eq!(compressed, first & 0b11 != 0b11);
        assert_eq!(i.compressed(), compressed);
    }
}

#[test]
fn compressed_and_standard_exclude_each_other() {
    for low in 0..4u32 {
        for high in [0u32, 0x4, 0x1234_5678 & !0b11, 0xFFFF_FFFC] {
            let i = Instruction::new(high | low);
            assert!(i.compressed() != i.standard());
            assert_eq!(i.standard(), low == 0b11);
        }
    }
}
