use rysk::{Addressable, Cause, Hart, Instruction, Register};
use std::cell::RefCell;

struct Ram {
    bytes: RefCell<Vec<u8>>,
}

impl Ram {
    fn with_size(size: usize) -> Ram {
        Ram { bytes: RefCell::new(vec![0; size]) }
    }

    fn read(&self, address: u32, width: usize) -> u64 {
        let bytes = self.bytes.borrow();
        let mut value = 0u64;
        for i in 0..width {
            // Reads outside the memory yield zero.
            let byte = bytes.get(address as usize + i).copied().unwrap_or(0);
            value |= (byte as u64) << (8 * i);
        }
        value
    }

    fn write(&self, address: u32, width: usize, value: u64) -> Result<(), Cause<u32>> {
        if address as usize % width != 0 {
            return Err(Cause::<u32>::store_misalign());
        }
        let mut bytes = self.bytes.borrow_mut();
        if address as usize + width > bytes.len() {
            return Err(Cause::<u32>::store_fault());
        }
        for i in 0..width {
            bytes[address as usize + i] = (value >> (8 * i)) as u8;
        }
        Ok(())
    }
}

impl Addressable<u32> for Ram {
    fn read_u8(&self, address: u32) -> u8 {
        self.read(address, 1) as u8
    }

    fn read_u16(&self, address: u32) -> u16 {
        self.read(address, 2) as u16
    }

    fn read_u32(&self, address: u32) -> u32 {
        self.read(address, 4) as u32
    }

    fn read_u64(&self, address: u32) -> u64 {
        self.read(address, 8)
    }

    fn write_u8(&self, address: u32, byte: u8) -> Result<(), Cause<u32>> {
        self.write(address, 1, byte as u64)
    }

    fn write_u16(&self, address: u32, halfword: u16) -> Result<(), Cause<u32>> {
        self.write(address, 2, halfword as u64)
    }

    fn write_u32(&self, address: u32, word: u32) -> Result<(), Cause<u32>> {
        self.write(address, 4, word as u64)
    }

    fn write_u64(&self, address: u32, doubleword: u64) -> Result<(), Cause<u32>> {
        self.write(address, 8, doubleword)
    }
}

struct Core {
    registers: [u32; 32],
    ram: Ram,
}

impl Hart<u32, Ram> for Core {
    fn load_register(&self, r: Register) -> u32 {
        self.registers[r as usize]
    }

    fn store_register(&mut self, r: Register, v: u32) {
        self.registers[r as usize] = v;
    }

    fn bus(&mut self) -> &mut Ram {
        &mut self.ram
    }
}

#[test]
fn bus_reads_back_what_was_written() {
    let ram = Ram::with_size(16);
    assert!(ram.write_u32(4, 0xfe857ee3).is_ok());
    assert_eq!(ram.read_u32(4), 0xfe857ee3);
    assert_eq!(ram.read_u16(4), 0x7ee3);
    assert_eq!(ram.read_u16(6), 0xfe85);
    assert_eq!(ram.read_u8(7), 0xfe);
    assert_eq!(ram.read_u64(0), 0xfe857ee3_0000_0000);
}

#[test]
fn bus_write_fails_with_a_cause() {
    let ram = Ram::with_size(16);
    assert!(ram.write_u16(1, 7) == Err(Cause::<u32>::store_misalign()));
    assert!(ram.write_u64(16, 7) == Err(Cause::<u32>::store_fault()));
    assert!(ram.write_u8(15, 7) == Ok(()));
    match ram.write_u32(64, 7) {
        Err(cause) => assert!(!cause.interrupt()),
        Ok(()) => panic!("a write outside the memory went through"),
    }
}

#[test]
fn hart_holds_every_register() {
    let mut core = Core { registers: [0; 32], ram: Ram::with_size(8) };
    for n in 0..32u8 {
        core.store_register(Register::new(n).unwrap(), 100 + n as u32);
    }
    for n in 0..32u8 {
        assert_eq!(core.load_register(Register::new(n).unwrap()), 100 + n as u32);
    }
}

#[test]
fn hart_fetches_and_decodes_from_its_bus() {
    let mut core = Core { registers: [0; 32], ram: Ram::with_size(8) };
    // jalr x31,1234(x11), then c.li x11,0
    assert!(core.bus().write_u32(0, 0x4d258fe7).is_ok());
    assert!(core.bus().write_u16(4, 0x4581).is_ok());

    let parcels = [core.bus().read_u16(0), core.bus().read_u16(2)];
    let (first, compressed) = Instruction::from_parcels(parcels);
    assert!(!compressed);
    core.store_register(first.rd(), first.i_immediate());
    assert_eq!(core.load_register(Register::X31), 1234);

    let parcels = [core.bus().read_u16(4), core.bus().read_u16(6)];
    let (second, compressed) = Instruction::from_parcels(parcels);
    assert!(compressed);
    assert!(second.compressed_rs1() == Register::X11);
}
