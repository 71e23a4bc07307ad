use vstd::prelude::*;

pub mod error;

use error::{CartridgeError, NotProbableCartridgeError};

verus! {

/// A set of ROM tests, as bits.
#[derive(Debug, Clone, Copy, PartialEq, Eq, Structural)]
pub struct TestFlags {
    bits: u32,
}

/// The ROM size is a non-zero multiple of `0x8000`.
pub const FLAG_SIZE: u32 = 1 << 0;
/// The checksum and its complement at `7FDCh-7FDFh` match the ROM.
pub const FLAG_CHECKSUM_LO: u32 = 1 << 1;
/// The checksum and its complement at `FFDCh-FFDFh` match the ROM.
pub const FLAG_CHECKSUM_HI: u32 = 1 << 2;
/// The ROM speed and map mode byte at `7FD5h` is plausible.
pub const FLAG_ROM_SPEED_AND_MAP_LO: u32 = 1 << 3;
/// The ROM speed and map mode byte at `FFD5h` is plausible.
pub const FLAG_ROM_SPEED_AND_MAP_HI: u32 = 1 << 4;
/// The chipset byte at `7FD6h` is plausible.
pub const FLAG_CHIPSET_LO: u32 = 1 << 5;
/// The chipset byte at `FFD6h` is plausible.
pub const FLAG_CHIPSET_HI: u32 = 1 << 6;
/// The country code at `7FD9h` is plausible.
pub const FLAG_COUNTRY_LO: u32 = 1 << 7;
/// The country code at `FFD9h` is plausible.
pub const FLAG_COUNTRY_HI: u32 = 1 << 8;
/// Every test.
pub const FLAG_ALL: u32 = 0x1FF;

impl TestFlags {
    pub closed spec fn spec_bits(&self) -> u32 {
        self.bits
    }

    /// The flags whose bits are set in `bits`; other bits are dropped.
    pub fn from_bits_truncate(bits: u32) -> (r: TestFlags)
        ensures
            r.spec_bits() == bits & FLAG_ALL,
    {
        TestFlags { bits: bits & FLAG_ALL }
    }

    pub fn bits(&self) -> (r: u32)
        ensures
            r == self.spec_bits(),
    {
        self.bits
    }

    /// No test.
    pub fn empty() -> (r: TestFlags)
        ensures
            r.spec_bits() == 0,
    {
        TestFlags { bits: 0 }
    }

    /// Every test.
    pub fn all() -> (r: TestFlags)
        ensures
            r.spec_bits() == FLAG_ALL,
    {
        TestFlags { bits: FLAG_ALL }
    }

    /// Every flag of `other` is in `self`.
    pub fn contains(&self, other: TestFlags) -> (r: bool)
        ensures
            r == (self.spec_bits() & other.spec_bits() == other.spec_bits()),
    {
        self.bits & other.bits == other.bits
    }

    /// The flags of both.
    pub fn union(&self, other: TestFlags) -> (r: TestFlags)
        ensures
            r.spec_bits() == self.spec_bits() | other.spec_bits(),
    {
        TestFlags { bits: self.bits | other.bits }
    }
}

impl Default for TestFlags {
    fn default() -> (r: TestFlags)
        ensures
            r.spec_bits() == FLAG_ALL,
    {
        TestFlags::all()
    }
}

/// Sum of the bytes.
pub open spec fn byte_sum(rom: Seq<u8>) -> int
    decreases rom.len(),
{
    if rom.len() == 0 {
        0
    } else {
        byte_sum(rom.drop_last()) + rom.last()
    }
}

/// The checksum of an image: the sum of its bytes, modulo `0x10000`.
pub open spec fn checksum(rom: Seq<u8>) -> int {
    byte_sum(rom) % 0x10000
}

/// The little-endian 16-bit word at `offset`, if both bytes are in the image.
pub open spec fn word_at(rom: Seq<u8>, offset: int) -> Option<int> {
    if 0 <= offset && offset + 1 < rom.len() {
        Some(rom[offset + 1] * 0x100 + rom[offset])
    } else {
        None
    }
}

/// The complement at `offset` and the checksum right after it match the image.
pub open spec fn checksum_matches(rom: Seq<u8>, offset: int) -> bool {
    word_at(rom, offset) == Some(0xFFFF - checksum(rom)) && word_at(rom, offset + 2) == Some(checksum(rom))
}

/// A plausible ROM speed and map mode byte.
pub open spec fn makeup_plausible(b: u8) -> bool {
    b & 0xE0 == 0x20 && {
        let m = b & 0xF;
        m == 0 || m == 1 || m == 2 || m == 3 || m == 5 || m == 0xA
    }
}

/// A plausible chipset byte.
pub open spec fn chipset_plausible(b: u8) -> bool {
    b <= 0x05 || (0x13 <= b && b <= 0x15) || b == 0x1A || b == 0x25 || b == 0x32 || b == 0x34
        || b == 0x35 || b == 0x43 || b == 0x45 || b == 0x55 || b == 0xE3 || b == 0xE5 || b == 0xF3
        || b == 0xF5 || b == 0xF6 || b == 0xF9
}

/// A plausible country code.
pub open spec fn country_plausible(b: u8) -> bool {
    b <= 0x14
}

/// `flag` where `cond` holds, else nothing.
pub open spec fn flag_if(cond: bool, flag: u32) -> u32 {
    if cond { flag } else { 0 }
}

/// The tests that an image passes.
pub open spec fn rom_test_bits(rom: Seq<u8>) -> u32 {
    flag_if(rom.len() % 0x8000 == 0 && rom.len() > 0, FLAG_SIZE)
        | flag_if(checksum_matches(rom, 0x7FDC), FLAG_CHECKSUM_LO)
        | flag_if(checksum_matches(rom, 0xFFDC), FLAG_CHECKSUM_HI)
        | flag_if(0x7FD5 < rom.len() && makeup_plausible(rom[0x7FD5]), FLAG_ROM_SPEED_AND_MAP_LO)
        | flag_if(0xFFD5 < rom.len() && makeup_plausible(rom[0xFFD5]), FLAG_ROM_SPEED_AND_MAP_HI)
        | flag_if(0x7FD6 < rom.len() && chipset_plausible(rom[0x7FD6]), FLAG_CHIPSET_LO)
        | flag_if(0xFFD6 < rom.len() && chipset_plausible(rom[0xFFD6]), FLAG_CHIPSET_HI)
        | flag_if(0x7FD9 < rom.len() && country_plausible(rom[0x7FD9]), FLAG_COUNTRY_LO)
        | flag_if(0xFFD9 < rom.len() && country_plausible(rom[0xFFD9]), FLAG_COUNTRY_HI)
}

fn sum16(rom: &Vec<u8>) -> (r: u16)
    ensures
        r as int == checksum(rom@),
{
    let mut sum: u16 = 0;
    let mut k: usize = 0;
    while k < rom.len()
        invariant
            k <= rom@.len(),
            sum as int == checksum(rom@.take(k as int)),
        decreases rom@.len() - k,
    {
        proof {
            assert(rom@.take(k + 1).drop_last() =~= rom@.take(k as int));
            assert(rom@.take(k + 1).last() == rom@[k as int]);
            vstd::arithmetic::div_mod::lemma_add_mod_noop(byte_sum(rom@.take(k as int)), rom@[k as int] as int, 0x10000);
            vstd::arithmetic::div_mod::lemma_small_mod(rom@[k as int] as nat, 0x10000);
        }
        sum = sum.wrapping_add(rom[k] as u16);
        k = k + 1;
    }
    assert(rom@.take(k as int) =~= rom@);
    sum
}

fn word_at_exec(rom: &Vec<u8>, offset: usize) -> (r: Option<u16>)
    requires
        offset < 0x10000,
    ensures
        r matches Some(w) ==> word_at(rom@, offset as int) == Some(w as int),
        r is None ==> word_at(rom@, offset as int) is None,
{
    if offset + 1 < rom.len() {
        let h = rom[offset + 1];
        let l = rom[offset];
        proof {
            assert(((h as u16) << 8 | (l as u16)) == (h as u16) * 0x100 + (l as u16)) by (bit_vector);
        }
        Some((h as u16) << 8 | (l as u16))
    } else {
        None
    }
}

fn checksum_matches_exec(rom: &Vec<u8>, sum: u16, offset: usize) -> (r: bool)
    requires
        offset <= 0xFFDC,
        sum as int == checksum(rom@),
    ensures
        r == checksum_matches(rom@, offset as int),
{
    let compl = word_at_exec(rom, offset);
    let check = word_at_exec(rom, offset + 2);
    let c_ok = match compl {
        Some(w) => w == sum ^ 0xFFFF,
        None => false,
    };
    let s_ok = match check {
        Some(w) => w == sum,
        None => false,
    };
    proof {
        assert(sum ^ 0xFFFF == 0xFFFF - sum) by (bit_vector);
    }
    c_ok && s_ok
}

fn flag_if_exec(cond: bool, flag: u32) -> (r: u32)
    ensures
        r == flag_if(cond, flag),
{
    if cond { flag } else { 0 }
}

/// How a cartridge lays its ROM and save RAM out in the 24-bit address space.
#[derive(Debug, Clone, Copy, PartialEq, Eq, Structural)]
pub enum ROMType {
    /// 32 KiB banks in the upper half of each bank.
    LoROM,
    /// 64 KiB banks.
    HiROM,
}

fn makeup_plausible_exec(b: u8) -> (r: bool)
    ensures
        r == makeup_plausible(b),
{
    let m = b & 0xF;
    b & 0xE0 == 0x20 && (m == 0 || m == 1 || m == 2 || m == 3 || m == 5 || m == 0xA)
}

fn chipset_plausible_exec(b: u8) -> (r: bool)
    ensures
        r == chipset_plausible(b),
{
    b <= 0x05 || (0x13 <= b && b <= 0x15) || b == 0x1A || b == 0x25 || b == 0x32 || b == 0x34
        || b == 0x35 || b == 0x43 || b == 0x45 || b == 0x55 || b == 0xE3 || b == 0xE5 || b == 0xF3
        || b == 0xF5 || b == 0xF6 || b == 0xF9
}

/// A cartridge image: its ROM bytes, the tests it passed and the size of its save RAM.
pub struct Cartridge {
    rom: Vec<u8>,
    passed: TestFlags,
    sram_size: usize,
}

impl Cartridge {
    /// Accepts an image when `test_flags` holds every test that it passed.
    pub fn new(rom: Vec<u8>, test_flags: TestFlags) -> (r: Result<Cartridge, CartridgeError>)
        ensures
            (test_flags.spec_bits() & rom_test_bits(rom@) == rom_test_bits(rom@)) ==> (r matches Ok(c)
                && c.rom_bytes() == rom@ && c.spec_passed().spec_bits() == rom_test_bits(rom@)
                && c.spec_sram_size() == 0),
            !(test_flags.spec_bits() & rom_test_bits(rom@) == rom_test_bits(rom@)) ==> (r matches Err(
                CartridgeError::NotProbableCartridge(e)) && e.passed.spec_bits() == rom_test_bits(rom@)
                && e.required == test_flags),
    {
        let passed = Self::rom_test(&rom);
        if !test_flags.contains(passed) {
            return Err(CartridgeError::NotProbableCartridge(NotProbableCartridgeError::new(passed, test_flags)));
        }
        Ok(Cartridge { rom, passed, sram_size: 0 })
    }

    /// The tests that the image passes.
    pub fn rom_test(rom: &Vec<u8>) -> (r: TestFlags)
        ensures
            r.spec_bits() == rom_test_bits(rom@),
    {
        let len = rom.len();
        let sum = sum16(rom);
        let size = flag_if_exec(len % 0x8000 == 0 && len > 0, FLAG_SIZE);
        let checksum_lo = flag_if_exec(checksum_matches_exec(rom, sum, 0x7FDC), FLAG_CHECKSUM_LO);
        let checksum_hi = flag_if_exec(checksum_matches_exec(rom, sum, 0xFFDC), FLAG_CHECKSUM_HI);
        let makeup_lo = flag_if_exec(0x7FD5 < len && makeup_plausible_exec(rom[0x7FD5]), FLAG_ROM_SPEED_AND_MAP_LO);
        let makeup_hi = flag_if_exec(0xFFD5 < len && makeup_plausible_exec(rom[0xFFD5]), FLAG_ROM_SPEED_AND_MAP_HI);
        let chipset_lo = flag_if_exec(0x7FD6 < len && chipset_plausible_exec(rom[0x7FD6]), FLAG_CHIPSET_LO);
        let chipset_hi = flag_if_exec(0xFFD6 < len && chipset_plausible_exec(rom[0xFFD6]), FLAG_CHIPSET_HI);
        let country_lo = flag_if_exec(0x7FD9 < len && rom[0x7FD9] <= 0x14, FLAG_COUNTRY_LO);
        let country_hi = flag_if_exec(0xFFD9 < len && rom[0xFFD9] <= 0x14, FLAG_COUNTRY_HI);
        TestFlags {
            bits: size | checksum_lo | checksum_hi | makeup_lo | makeup_hi | chipset_lo | chipset_hi
                | country_lo | country_hi,
        }
    }

    /// The same cartridge with save RAM of `size` bytes; zero means none.
    pub fn with_sram_size(self, size: usize) -> (r: Cartridge)
        ensures
            r.rom_bytes() == self.rom_bytes(),
            r.spec_passed() == self.spec_passed(),
            r.spec_sram_size() == size,
    {
        Cartridge { rom: self.rom, passed: self.passed, sram_size: size }
    }

    pub closed spec fn spec_passed(&self) -> TestFlags {
        self.passed
    }

    /// The tests that the image passed.
    pub fn passed(&self) -> (r: TestFlags)
        ensures
            r == self.spec_passed(),
    {
        self.passed
    }

    /// The ROM image.
    pub closed spec fn rom_bytes(&self) -> Seq<u8> {
        self.rom@
    }

    /// The size of the save RAM in bytes; zero when the cartridge has none.
    pub closed spec fn spec_sram_size(&self) -> nat {
        self.sram_size as nat
    }

    /// Takes the ROM image out of the cartridge.
    pub fn into_rom(self) -> (r: Vec<u8>)
        ensures
            r@ == self.rom_bytes(),
    {
        self.rom
    }

    /// The size of the save RAM in bytes; zero when the cartridge has none.
    pub fn sram_size(&self) -> (r: usize)
        ensures
            r as nat == self.spec_sram_size(),
    {
        self.sram_size
    }

    /// The length of the ROM image.
    pub fn rom_len(&self) -> (r: usize)
        ensures
            r as nat == self.rom_bytes().len(),
    {
        self.rom.len()
    }
}

} // verus!
