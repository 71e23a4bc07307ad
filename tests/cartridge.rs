use sneslib::cartridge::error::CartridgeError;
use sneslib::cartridge::{Cartridge, TestFlags, FLAG_COUNTRY_LO, FLAG_SIZE, FLAG_CHECKSUM_LO};

#[test]
fn rom_test_size_flag() {
    let flags = Cartridge::rom_test(&vec![0u8; 0x8000]);
    assert_eq!(flags.bits() & FLAG_SIZE, FLAG_SIZE);
    let flags = Cartridge::rom_test(&vec![0u8; 0x8001]);
    assert_eq!(flags.bits() & FLAG_SIZE, 0);
    let flags = Cartridge::rom_test(&Vec::new());
    assert_eq!(flags.bits(), 0);
}

#[test]
fn rom_test_checksum_and_country() {
    let mut rom = vec![0u8; 0x8000];
    rom[0x7FD9] = 0x01;
    // bytes 7FDC..7FDF: complement then checksum, little-endian
    let sum: u16 = 0x01 + 0xFF + 0xFF;
    rom[0x7FDC] = 0xFF;
    rom[0x7FDD] = 0xFF;
    let sum = sum.wrapping_add(0x00);
    let compl = sum ^ 0xFFFF;
    rom[0x7FDC] = compl as u8;
    rom[0x7FDD] = (compl >> 8) as u8;
    rom[0x7FDE] = sum as u8;
    rom[0x7FDF] = (sum >> 8) as u8;
    let real: u16 = rom.iter().fold(0u16, |r, &b| r.wrapping_add(b as u16));
    let flags = Cartridge::rom_test(&rom);
    assert_eq!(flags.bits() & FLAG_COUNTRY_LO, FLAG_COUNTRY_LO);
    assert_eq!(flags.bits() & FLAG_CHECKSUM_LO != 0, real == sum);
}

#[test]
fn cartridge_rejected_when_flags_do_not_cover() {
    let r = Cartridge::new(vec![0u8; 0x8000], TestFlags::empty());
    match r {
        Err(CartridgeError::NotProbableCartridge(e)) => {
            assert_eq!(e.required, TestFlags::empty());
            assert_eq!(e.passed.bits() & FLAG_SIZE, FLAG_SIZE);
        }
        _ => panic!("expected a rejection"),
    }
    let c = Cartridge::new(vec![0u8; 0x8000], TestFlags::all()).unwrap();
    assert_eq!(c.rom_len(), 0x8000);
    assert_eq!(c.sram_size(), 0);
}
