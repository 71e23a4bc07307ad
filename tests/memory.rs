use sneslib::address::Address24;
use sneslib::cartridge::{Cartridge, ROMType, TestFlags};
use sneslib::memory::{layout_is_supported, map_directives, MapInfo, MemoryMap};

fn image(len: usize) -> Vec<u8> {
    (0..len).map(|i| (i % 251) as u8 ^ (i >> 8) as u8).collect()
}

fn build(rom: Vec<u8>, sram: usize, mode: ROMType) -> MemoryMap {
    let cart = Cartridge::new(rom, TestFlags::all()).unwrap().with_sram_size(sram);
    MemoryMap::from_cartridge(cart, Some(mode))
}

fn read(m: &MemoryMap, a: u32) -> u8 {
    m.read(Address24::new(a))
}

#[test]
fn lorom_32k_without_sram() {
    let rom = image(0x8000);
    let m = build(rom.clone(), 0, ROMType::LoROM);
    assert_eq!(read(&m, 0x008000), rom[0]);
    assert_eq!(read(&m, 0x408000), rom[0]);
    assert_eq!(read(&m, 0x400000), rom[0]);
    assert_eq!(read(&m, 0x80FFFF), rom[0x7FFF]);
}

#[test]
fn hirom_64k_with_2k_sram() {
    let rom = image(0x10000);
    let mut m = build(rom.clone(), 0x800, ROMType::HiROM);
    m.write(Address24::new(0x206000), 0x7F);
    assert_eq!(read(&m, 0x206000), 0x7F);
    assert_eq!(read(&m, 0x008000), rom[0x8000]);
    // save RAM repeats every 2 KiB and in the mirrored banks
    assert_eq!(read(&m, 0x206800), 0x7F);
    assert_eq!(read(&m, 0xA07800), 0x7F);
}

#[test]
fn wram_mirroring() {
    let mut m = build(image(0x8000), 0, ROMType::LoROM);
    m.write(Address24::new(0x7E0000), 0xAB);
    assert_eq!(read(&m, 0x000000), 0xAB);
    assert_eq!(read(&m, 0x800000), 0xAB);
    m.write(Address24::new(0x801FFF), 0x11);
    assert_eq!(read(&m, 0x7E1FFF), 0x11);
    m.write(Address24::new(0x7F0000), 0x22);
    assert_eq!(read(&m, 0x7F0000), 0x22);
}

#[test]
fn open_bus_reads_sentinel_and_ignores_writes() {
    let rom = image(0x10000);
    let mut m = build(rom, 0, ROMType::HiROM);
    assert_eq!(read(&m, 0x410000), 0x55);
    m.write(Address24::new(0x410000), 0x01);
    assert_eq!(read(&m, 0x410000), 0x55);
    assert_eq!(read(&m, 0x7E0000), 0);
}

#[test]
fn rom_is_read_only() {
    let rom = image(0x8000);
    let mut m = build(rom.clone(), 0, ROMType::LoROM);
    m.write(Address24::new(0x008000), !rom[0]);
    assert_eq!(read(&m, 0x008000), rom[0]);
    assert_eq!(read(&m, 0x408000), rom[0]);
}

#[test]
fn write_then_read_every_value() {
    let mut m = build(image(0x8000), 0x2000, ROMType::LoROM);
    for v in 0..=255u8 {
        m.write(Address24::new(0x7E1234), v);
        assert_eq!(read(&m, 0x7E1234), v);
        m.write(Address24::new(0x700010), v);
        assert_eq!(read(&m, 0x700010), v);
        assert_eq!(read(&m, 0x702010), v);
    }
}

#[test]
fn lorom_rom_chunks_wrap() {
    let rom = image(0x20000);
    let m = build(rom.clone(), 0, ROMType::LoROM);
    assert_eq!(read(&m, 0x018000), rom[0x8000]);
    assert_eq!(read(&m, 0x048000), rom[0]);
    assert_eq!(read(&m, 0x838000), rom[0x18000]);
}

#[test]
fn directive_lists() {
    let d = map_directives(ROMType::HiROM, 0x10000, 0x800);
    assert_eq!(d[0], MapInfo::WRAM { src: 0, dst: 0, len: 0x2000 });
    assert_eq!(d[128], MapInfo::WRAM { src: 0, dst: 0x7E0000, len: 0x20000 });
    assert_eq!(d[129], MapInfo::ROM { src: 0x8000, dst: 0x8000, len: 0x8000 });
    // two upper halves, two full banks, 64 banks of four save RAM copies
    assert_eq!(d.len(), 129 + 2 + 2 + 64 * 4);
    let d = map_directives(ROMType::LoROM, 0x8000, 0);
    assert_eq!(d.len(), 129 + 254 + 126);
    let d = map_directives(ROMType::LoROM, 0x8000, 0x20000);
    assert_eq!(d.len(), 129 + 254 + 15);
    assert_eq!(d[129 + 254 + 7], MapInfo::SRAM { src: 0, dst: 0xF00000, len: 0x20000 });
}

#[test]
fn every_address_reads_and_writes() {
    let mut m = build(image(0x400000), 0, ROMType::LoROM);
    for a in 0..0x1000000u32 {
        let _ = read(&m, a);
    }
    for a in (0..0x1000000u32).step_by(7) {
        m.write(Address24::new(a), a as u8);
    }
    assert_eq!(read(&m, 0x008000), image(1)[0]);
}

#[test]
fn every_address_hirom_with_sram() {
    let mut m = build(image(0x10000), 0x2000, ROMType::HiROM);
    for a in (0..0x1000000u32).step_by(3) {
        m.write(Address24::new(a), 0xEE);
        let _ = read(&m, a);
    }
    assert_eq!(read(&m, 0x206000), 0xEE);
}

#[test]
fn lorom_4m_rom_reaches_last_chunk() {
    let rom = image(0x400000);
    let m = build(rom.clone(), 0, ROMType::LoROM);
    assert_eq!(read(&m, 0xFFFFFF), rom[0x3FFFFF]);
    assert_eq!(read(&m, 0x7DFFFF), rom[0x3EFFFF]);
    assert_eq!(read(&m, 0x3FFFFF), rom[0x1FFFFF]);
}

#[test]
fn empty_rom_maps_no_rom() {
    let m = build(Vec::new(), 0, ROMType::LoROM);
    assert_eq!(read(&m, 0x008000), 0x55);
    assert_eq!(read(&m, 0x7E0000), 0);
}

#[test]
fn write_through_low_mirror_seen_in_high_mirror() {
    let mut m = build(image(0x8000), 0, ROMType::HiROM);
    m.write(Address24::new(0x000000), 0x5A);
    assert_eq!(read(&m, 0x800000), 0x5A);
    assert_eq!(read(&m, 0x3F0000), 0x5A);
    assert_eq!(read(&m, 0x7E0000), 0x5A);
}

#[test]
fn lorom_large_sram_tiles_both_ranges() {
    let mut m = build(image(0x8000), 0x20000, ROMType::LoROM);
    m.write(Address24::new(0x700001), 0x42);
    assert_eq!(read(&m, 0x720001), 0x42);
    assert_eq!(read(&m, 0xF00001), 0x42);
    // ROM still shows in the upper half of bank 0x00
    assert_eq!(read(&m, 0x008000), image(1)[0]);
}

#[test]
fn unsupported_layouts_are_reported() {
    assert!(layout_is_supported(ROMType::LoROM, 0x400000, 0));
    assert!(!layout_is_supported(ROMType::LoROM, 0x400001, 0));
    assert!(!layout_is_supported(ROMType::LoROM, 0x8000, 0x40000));
    assert!(layout_is_supported(ROMType::LoROM, 0x8000, 0x20000));
    assert!(layout_is_supported(ROMType::HiROM, 0x10000, 0x2000));
    assert!(!layout_is_supported(ROMType::HiROM, 0x10000, 0x4000));
    assert!(!layout_is_supported(ROMType::HiROM, 0x18000, 0));
    assert!(layout_is_supported(ROMType::HiROM, 0x500000, 0));
}
