use serun::cartridge::{Cartidge, CartidgeError};
use serun::memory::Memory;
use serun::opcodes::{lookup, AddressingMode, Opcode};

#[test]
fn words_are_little_endian_and_wrap() {
    let mut m = Memory::new();
    m.write_u16(0x1000, 0xBEEF);
    assert_eq!(m.read(0x1000), 0xEF);
    assert_eq!(m.read(0x1001), 0xBE);
    assert_eq!(m.read_u16(0x1000), 0xBEEF);
    m.write_u16(0xFFFF, 0x1234);
    assert_eq!(m.read(0xFFFF), 0x34);
    assert_eq!(m.read(0x0000), 0x12);
    assert_eq!(m.read_u16(0xFFFF), 0x1234);
}

#[test]
fn load_copies_program_and_sets_reset_vector() {
    let mut m = Memory::default();
    m.load(vec![1, 2, 3]);
    assert_eq!(m.read(0x8000), 1);
    assert_eq!(m.read(0x8002), 3);
    assert_eq!(m.read(0x8003), 0);
    assert_eq!(m.read_u16(0xFFFC), 0x8000);
    m.load_at(&vec![9, 8], 0x0600);
    assert_eq!(m.read(0x0601), 8);
    assert_eq!(m.read_u16(0xFFFC), 0x0600);
}

#[test]
fn table_entries() {
    let txs = lookup(0x9A).unwrap();
    assert_eq!(txs.opcode, Opcode::TXS);
    let asl = lookup(0x0A).unwrap();
    assert_eq!(asl.addressing_mode, AddressingMode::Accumulator);
    let lda = lookup(0xB1).unwrap();
    assert_eq!((lda.opcode, lda.bytes, lda.cycles, lda.addressing_mode), (Opcode::LDA, 2, 5, AddressingMode::Indirect_Y));
    assert!(lookup(0x02).is_none());
    assert_eq!((0u16..256).filter(|b| lookup(*b as u8).is_some()).count(), 151);
}

fn image(prg_units: u8, chr_units: u8, flags6: u8) -> Vec<u8> {
    let mut data = vec![0x4E, 0x45, 0x53, 0x1A, prg_units, chr_units, flags6];
    data.resize(16, 0);
    if flags6 & 0b100 != 0 {
        data.extend(std::iter::repeat(0xEE).take(512));
    }
    data.extend(std::iter::repeat(0xAA).take(prg_units as usize * 16384));
    data.extend(std::iter::repeat(0xBB).take(chr_units as usize * 8192));
    data
}

#[test]
fn cartridge_without_magic_is_rejected() {
    let mut data = image(1, 1, 0);
    data[0] = 0x00;
    assert!(matches!(Cartidge::from_bytes(data), Err(CartidgeError::MissingHeaderPrefix)));
    assert!(matches!(Cartidge::from_bytes(vec![0x4E, 0x45]), Err(CartidgeError::MissingHeaderPrefix)));
}

#[test]
fn truncated_cartridge_is_rejected() {
    let mut data = image(1, 1, 0);
    data.pop();
    assert!(matches!(Cartidge::from_bytes(data), Err(CartidgeError::Truncated)));
    assert!(matches!(Cartidge::from_bytes(vec![0x4E, 0x45, 0x53, 0x1A, 1]), Err(CartidgeError::Truncated)));
}

#[test]
fn cartridge_regions_are_sliced() {
    let c = Cartidge::from_bytes(image(2, 1, 0)).unwrap();
    assert_eq!(c.prg_rom().len(), 32768);
    assert!(c.prg_rom().iter().all(|b| *b == 0xAA));
    assert_eq!(c.chr_rom().len(), 8192);
    assert!(c.chr_rom().iter().all(|b| *b == 0xBB));
}

#[test]
fn cartridge_trainer_is_skipped() {
    let c = Cartidge::from_bytes(image(1, 0, 0b100)).unwrap();
    assert_eq!(c.prg_rom().len(), 16384);
    assert!(c.prg_rom().iter().all(|b| *b == 0xAA));
    assert!(c.chr_rom().is_empty());
}
