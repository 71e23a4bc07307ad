//! The 24-bit address space: decode tables built from mapping directives, and byte
//! reads and writes through them.

use vstd::prelude::*;

pub mod laws;
pub mod layout;

use crate::address::Address24;
use crate::cartridge::{Cartridge, ROMType};

pub use layout::{directives, layout_is_supported, layout_supported, map_directives, all_fit};

verus! {

/// Number of addresses in the flat space: 256 banks.
pub const MAP_SIZE: usize = 0x1000000;

/// Size of working RAM: two banks.
pub const WRAM_SIZE: usize = 0x20000;

/// Value read from an address that no memory answers.
pub const OPEN_BUS: u8 = 0x55;

/// One byte cell of one memory region, by its offset inside the region.
#[derive(Debug, Clone, Copy, PartialEq, Eq, Structural)]
pub enum Cell {
    Rom(u32),
    Wram(u32),
    Sram(u32),
}

/// Makes `len` bytes of a region, from offset `src`, visible at the flat addresses
/// `dst .. dst + len`.
#[derive(Debug, Clone, Copy, PartialEq, Eq, Structural)]
pub enum MapInfo {
    ROM { src: usize, dst: usize, len: usize },
    WRAM { src: usize, dst: usize, len: usize },
    SRAM { src: usize, dst: usize, len: usize },
}

impl MapInfo {
    /// Offset of the run inside its region.
    pub open spec fn src(self) -> nat {
        match self {
            MapInfo::ROM { src, .. } => src as nat,
            MapInfo::WRAM { src, .. } => src as nat,
            MapInfo::SRAM { src, .. } => src as nat,
        }
    }

    /// First flat address of the run.
    pub open spec fn dst(self) -> nat {
        match self {
            MapInfo::ROM { dst, .. } => dst as nat,
            MapInfo::WRAM { dst, .. } => dst as nat,
            MapInfo::SRAM { dst, .. } => dst as nat,
        }
    }

    /// Length of the run.
    pub open spec fn len(self) -> nat {
        match self {
            MapInfo::ROM { len, .. } => len as nat,
            MapInfo::WRAM { len, .. } => len as nat,
            MapInfo::SRAM { len, .. } => len as nat,
        }
    }

    /// The directive makes flat address `i` visible.
    pub open spec fn covers(self, i: int) -> bool {
        self.dst() <= i < self.dst() + self.len()
    }

    /// The cell that the directive shows at flat address `i`.
    pub open spec fn cell_at(self, i: int) -> Cell {
        let o = (self.src() + (i - self.dst())) as u32;
        match self {
            MapInfo::ROM { .. } => Cell::Rom(o),
            MapInfo::WRAM { .. } => Cell::Wram(o),
            MapInfo::SRAM { .. } => Cell::Sram(o),
        }
    }

    /// Source and destination ranges lie inside regions of the given sizes and the flat
    /// space, and every region offset fits a cell.
    pub open spec fn fits(self, rom_len: nat, sram_len: nat) -> bool {
        &&& self.dst() + self.len() <= MAP_SIZE
        &&& self.src() + self.len() <= 0x100000000
        &&& self.src() + self.len() <= match self {
            MapInfo::ROM { .. } => rom_len,
            MapInfo::WRAM { .. } => WRAM_SIZE as nat,
            MapInfo::SRAM { .. } => sram_len,
        }
    }
}

/// What flat address `i` reads after the directives `ds` are applied in order over a
/// table that held `base` there: the last directive that covers `i` wins.
pub open spec fn read_after(base: Option<Cell>, ds: Seq<MapInfo>, i: int) -> Option<Cell>
    decreases ds.len(),
{
    if ds.len() == 0 {
        base
    } else if ds.last().covers(i) {
        Some(ds.last().cell_at(i))
    } else {
        read_after(base, ds.drop_last(), i)
    }
}

/// What flat address `i` writes after the directives `ds` are applied in order over a
/// table that held `base` there. The last directive that covers `i` wins; ROM is never
/// writable, so a ROM directive hides whatever was writable there before.
pub open spec fn write_after(base: Option<Cell>, ds: Seq<MapInfo>, i: int) -> Option<Cell>
    decreases ds.len(),
{
    if ds.len() == 0 {
        base
    } else if ds.last().covers(i) {
        match ds.last() {
            MapInfo::ROM { .. } => None,
            _ => Some(ds.last().cell_at(i)),
        }
    } else {
        write_after(base, ds.drop_last(), i)
    }
}

/// A region of `n` bytes, all zero.
fn new_ram(n: usize) -> (r: Vec<u8>)
    ensures
        r@ == Seq::new(n as nat, |i: int| 0u8),
{
    let mut v: Vec<u8> = Vec::with_capacity(n);
    let mut k: usize = 0;
    while k < n
        invariant
            k <= n,
            v@ == Seq::new(k as nat, |i: int| 0u8),
        decreases n - k,
    {
        v.push(0);
        k = k + 1;
        assert(v@ =~= Seq::new(k as nat, |i: int| 0u8));
    }
    v
}

/// A decode table with no address backed.
fn new_table() -> (r: Vec<Option<Cell>>)
    ensures
        r@ == Seq::new(MAP_SIZE as nat, |i: int| None::<Cell>),
{
    let mut v: Vec<Option<Cell>> = Vec::with_capacity(MAP_SIZE);
    let mut k: usize = 0;
    while k < MAP_SIZE
        invariant
            k <= MAP_SIZE,
            v@ == Seq::new(k as nat, |i: int| None::<Cell>),
        decreases MAP_SIZE - k,
    {
        v.push(None);
        k = k + 1;
        assert(v@ =~= Seq::new(k as nat, |i: int| None::<Cell>));
    }
    v
}

/// The cell that a read of flat address `i` reaches once a cartridge is mapped.
pub open spec fn read_target(mode: ROMType, rom_len: nat, sram_len: nat, i: int) -> Option<Cell> {
    read_after(None, directives(mode, rom_len, sram_len), i)
}

/// The cell that a write to flat address `i` reaches once a cartridge is mapped.
pub open spec fn write_target(mode: ROMType, rom_len: nat, sram_len: nat, i: int) -> Option<Cell> {
    write_after(None, directives(mode, rom_len, sram_len), i)
}

/// The address space of a console: ROM, working RAM and save RAM, and for each flat
/// address the cell that a read and a write reach. The decode tables are fixed when the
/// map is built; only the bytes of the regions change, through `write`.
pub struct MemoryMap {
    readable: Vec<Option<Cell>>,
    writable: Vec<Option<Cell>>,
    rom: Vec<u8>,
    wram: Vec<u8>,
    sram: Vec<u8>,
}

impl MemoryMap {
    pub closed spec fn rom_bytes(&self) -> Seq<u8> {
        self.rom@
    }

    pub closed spec fn wram_bytes(&self) -> Seq<u8> {
        self.wram@
    }

    /// Save RAM; empty when the cartridge has none.
    pub closed spec fn sram_bytes(&self) -> Seq<u8> {
        self.sram@
    }

    /// The cell that a read of flat address `i` reaches.
    pub closed spec fn read_cell(&self, i: int) -> Option<Cell> {
        self.readable@[i]
    }

    /// The cell that a write to flat address `i` reaches.
    pub closed spec fn write_cell(&self, i: int) -> Option<Cell> {
        self.writable@[i]
    }

    /// The cell lies inside its region.
    pub open spec fn in_bounds(&self, c: Cell) -> bool {
        match c {
            Cell::Rom(o) => o < self.rom_bytes().len(),
            Cell::Wram(o) => o < self.wram_bytes().len(),
            Cell::Sram(o) => o < self.sram_bytes().len(),
        }
    }

    /// The byte that cell `c` holds.
    pub open spec fn value_of(&self, c: Cell) -> u8 {
        match c {
            Cell::Rom(o) => self.rom_bytes()[o as int],
            Cell::Wram(o) => self.wram_bytes()[o as int],
            Cell::Sram(o) => self.sram_bytes()[o as int],
        }
    }

    /// The byte that a read of flat address `i` returns.
    pub open spec fn read_value(&self, i: int) -> u8 {
        match self.read_cell(i) {
            Some(c) => self.value_of(c),
            None => OPEN_BUS,
        }
    }

    /// Both tables cover the flat space and point into the regions; ROM is never
    /// writable, and where an address is writable a read reaches the same cell.
    pub closed spec fn wf(&self) -> bool {
        &&& self.readable@.len() == MAP_SIZE
        &&& self.writable@.len() == MAP_SIZE
        &&& self.wram@.len() == WRAM_SIZE
        &&& forall|i: int| 0 <= i < MAP_SIZE ==> self.tables_ok_at(i)
    }

    pub open spec fn tables_ok_at(&self, i: int) -> bool {
        &&& (self.read_cell(i) matches Some(c) ==> self.in_bounds(c))
        &&& (self.write_cell(i) matches Some(c) ==> self.read_cell(i) == Some(c) && !(c is Rom))
    }

    /// Every address decodes as the directives of a cartridge with this mode and these
    /// sizes say.
    pub open spec fn decodes_as(&self, mode: ROMType, rom_len: nat, sram_len: nat) -> bool {
        &&& forall|i: int| 0 <= i < MAP_SIZE ==> #[trigger] self.read_cell(i) == read_target(mode, rom_len, sram_len, i)
        &&& forall|i: int| 0 <= i < MAP_SIZE ==> #[trigger] self.write_cell(i) == write_target(mode, rom_len, sram_len, i)
    }

    /// Both maps decode every address to the same cells.
    pub closed spec fn same_tables(&self, other: MemoryMap) -> bool {
        self.readable@ == other.readable@ && self.writable@ == other.writable@
    }

    /// `self` is `before` after a write of `v` to flat address `i`: the cell that the
    /// address writes, if any, now holds `v`, and nothing else changed.
    pub open spec fn is_write_of(&self, before: MemoryMap, i: int, v: u8) -> bool {
        &&& self.same_tables(before)
        &&& self.rom_bytes() == before.rom_bytes()
        &&& self.wram_bytes() == match before.write_cell(i) {
            Some(Cell::Wram(o)) => before.wram_bytes().update(o as int, v),
            _ => before.wram_bytes(),
        }
        &&& self.sram_bytes() == match before.write_cell(i) {
            Some(Cell::Sram(o)) => before.sram_bytes().update(o as int, v),
            _ => before.sram_bytes(),
        }
    }

    /// Builds the memory map of a cartridge: ROM holds the image, working RAM and save
    /// RAM start zeroed, and every address decodes as the mode's directives say.
    pub fn from_cartridge(cartridge: Cartridge, hint: Option<ROMType>) -> (r: MemoryMap)
        requires
            hint is Some,
            layout_supported(hint->Some_0, cartridge.rom_bytes().len(), cartridge.spec_sram_size()),
        ensures
            r.wf(),
            r.rom_bytes() == cartridge.rom_bytes(),
            r.wram_bytes() == Seq::new(WRAM_SIZE as nat, |i: int| 0u8),
            r.sram_bytes() == Seq::new(cartridge.spec_sram_size(), |i: int| 0u8),
            r.decodes_as(hint->Some_0, cartridge.rom_bytes().len(), cartridge.spec_sram_size()),
    {
        let mode = match hint {
            Some(m) => m,
            None => ROMType::LoROM,
        };
        let sram_size = cartridge.sram_size();
        let rom = cartridge.into_rom();
        let rom_len = rom.len();
        let info = map_directives(mode, rom_len, sram_size);
        let mut memory_map = MemoryMap {
            readable: new_table(),
            writable: new_table(),
            rom,
            wram: new_ram(WRAM_SIZE),
            sram: new_ram(sram_size),
        };
        memory_map.map(&info);
        memory_map
    }

    /// The byte at `offset`, or the open-bus value where nothing is mapped for reading.
    pub fn read(&self, offset: Address24) -> (r: u8)
        requires
            self.wf(),
        ensures
            r == self.read_value(offset@ as int),
    {
        let i = offset.index();
        proof {
            assert(self.tables_ok_at(i as int));
        }
        match self.readable[i] {
            Some(Cell::Rom(o)) => self.rom[o as usize],
            Some(Cell::Wram(o)) => self.wram[o as usize],
            Some(Cell::Sram(o)) => self.sram[o as usize],
            None => OPEN_BUS,
        }
    }

    /// Stores `value` in the cell that `offset` writes; does nothing where no writable
    /// memory is mapped.
    pub fn write(&mut self, offset: Address24, value: u8)
        requires
            old(self).wf(),
        ensures
            final(self).wf(),
            final(self).is_write_of(*old(self), offset@ as int, value),
    {
        let i = offset.index();
        proof {
            assert(self.tables_ok_at(i as int));
        }
        match self.writable[i] {
            Some(Cell::Wram(o)) => self.wram.set(o as usize, value),
            Some(Cell::Sram(o)) => self.sram.set(o as usize, value),
            _ => {},
        }
        proof {
            assert forall|j: int| 0 <= j < MAP_SIZE implies #[trigger] self.tables_ok_at(j) by {
                assert(old(self).tables_ok_at(j));
            }
        }
    }

    /// A write to an address that reads ROM changes no byte that any address reads.
    pub proof fn lemma_rom_write_is_invisible(before: MemoryMap, after: MemoryMap, a: int, v: u8, b: int)
        requires
            before.wf(),
            0 <= a < MAP_SIZE,
            0 <= b < MAP_SIZE,
            before.read_cell(a) matches Some(Cell::Rom(_)),
            after.is_write_of(before, a, v),
        ensures
            after.read_value(b) == before.read_value(b),
    {
        assert(before.tables_ok_at(a));
        assert(after.readable@[b] == before.readable@[b]);
        assert(after.wram@ == before.wram@);
        assert(after.sram@ == before.sram@);
    }

    /// An address that reads nothing reads the open-bus value, and a write to it changes
    /// no byte.
    pub proof fn lemma_unbacked_is_open_bus(before: MemoryMap, after: MemoryMap, i: int, v: u8)
        requires
            before.wf(),
            0 <= i < MAP_SIZE,
            before.read_cell(i) is None,
            after.is_write_of(before, i, v),
        ensures
            before.read_value(i) == OPEN_BUS,
            after.read_value(i) == OPEN_BUS,
            after.rom_bytes() == before.rom_bytes(),
            after.wram_bytes() == before.wram_bytes(),
            after.sram_bytes() == before.sram_bytes(),
    {
        assert(before.tables_ok_at(i));
        assert(after.readable@[i] == before.readable@[i]);
    }

    /// Writes never reach ROM: every address that reads ROM reads the same byte after
    /// any write.
    pub proof fn lemma_rom_is_read_only(before: MemoryMap, after: MemoryMap, a: int, v: u8, b: int)
        requires
            before.wf(),
            0 <= a < MAP_SIZE,
            0 <= b < MAP_SIZE,
            before.read_cell(b) matches Some(Cell::Rom(_)),
            after.is_write_of(before, a, v),
        ensures
            after.read_value(b) == before.read_value(b),
    {
        assert(after.readable@[b] == before.readable@[b]);
    }

    /// Where an address is writable, a read of it after a write of `v` returns `v`.
    pub proof fn lemma_write_then_read(before: MemoryMap, after: MemoryMap, a: int, v: u8)
        requires
            before.wf(),
            0 <= a < MAP_SIZE,
            before.write_cell(a) is Some,
            after.is_write_of(before, a, v),
        ensures
            after.read_value(a) == v,
    {
        assert(before.tables_ok_at(a));
        assert(after.readable@[a] == before.readable@[a]);
    }

    /// A write through one address is seen through every address that reaches the same
    /// cell.
    pub proof fn lemma_write_through_mirror(before: MemoryMap, after: MemoryMap, a: int, b: int, v: u8)
        requires
            before.wf(),
            0 <= a < MAP_SIZE,
            0 <= b < MAP_SIZE,
            before.write_cell(a) is Some,
            before.read_cell(b) == before.write_cell(a),
            after.is_write_of(before, a, v),
        ensures
            after.read_value(b) == v,
    {
        assert(before.tables_ok_at(a));
        assert(after.readable@[b] == before.readable@[b]);
    }

    /// Applies the directives in order: each makes its run of cells visible, for reads,
    /// and for writes unless it is ROM.
    fn map(&mut self, info: &Vec<MapInfo>)
        requires
            old(self).wf(),
            forall|k: int| 0 <= k < info@.len() ==> (#[trigger] info@[k]).fits(old(self).rom@.len(), old(self).sram@.len()),
        ensures
            final(self).wf(),
            final(self).rom@ == old(self).rom@,
            final(self).wram@ == old(self).wram@,
            final(self).sram@ == old(self).sram@,
            forall|i: int| 0 <= i < MAP_SIZE ==> #[trigger] final(self).read_cell(i) == read_after(old(self).read_cell(i), info@, i),
            forall|i: int| 0 <= i < MAP_SIZE ==> #[trigger] final(self).write_cell(i) == write_after(old(self).write_cell(i), info@, i),
    {
        let ghost r0 = self.readable@;
        let ghost w0 = self.writable@;
        let mut k: usize = 0;
        while k < info.len()
            invariant
                0 <= k <= info@.len(),
                self.wf(),
                self.rom@ == old(self).rom@,
                self.wram@ == old(self).wram@,
                self.sram@ == old(self).sram@,
                r0 == old(self).readable@,
                w0 == old(self).writable@,
                forall|k: int| 0 <= k < info@.len() ==> (#[trigger] info@[k]).fits(old(self).rom@.len(), old(self).sram@.len()),
                forall|i: int| 0 <= i < MAP_SIZE ==> #[trigger] self.readable@[i] == read_after(r0[i], info@.take(k as int), i),
                forall|i: int| 0 <= i < MAP_SIZE ==> #[trigger] self.writable@[i] == write_after(w0[i], info@.take(k as int), i),
            decreases info@.len() - k,
        {
            let d = info[k];
            assert(d.fits(self.rom@.len(), self.sram@.len()));
            let ghost pre = info@.take(k as int);
            let ghost post = info@.take(k as int + 1);
            assert(post.drop_last() =~= pre);
            assert(post.last() == d);
            let (src, dst, len) = match d {
                MapInfo::ROM { src, dst, len } => (src, dst, len),
                MapInfo::WRAM { src, dst, len } => (src, dst, len),
                MapInfo::SRAM { src, dst, len } => (src, dst, len),
            };
            let mut j: usize = 0;
            while j < len
                invariant
                    0 <= j <= len,
                    len as nat == d.len(),
                    src as nat == d.src(),
                    dst as nat == d.dst(),
                    d.fits(self.rom@.len(), self.sram@.len()),
                    post.drop_last() == pre,
                    post.len() > 0,
                    post.last() == d,
                    self.wf(),
                    self.rom@ == old(self).rom@,
                    self.wram@ == old(self).wram@,
                    self.sram@ == old(self).sram@,
                    forall|i: int| 0 <= i < MAP_SIZE && !(dst <= i < dst + j) ==> #[trigger] self.readable@[i] == read_after(r0[i], pre, i),
                    forall|i: int| 0 <= i < MAP_SIZE && !(dst <= i < dst + j) ==> #[trigger] self.writable@[i] == write_after(w0[i], pre, i),
                    forall|i: int| dst <= i < dst + j ==> #[trigger] self.readable@[i] == read_after(r0[i], post, i),
                    forall|i: int| dst <= i < dst + j ==> #[trigger] self.writable@[i] == write_after(w0[i], post, i),
                decreases len - j,
            {
                let o = (src + j) as u32;
                let c = match d {
                    MapInfo::ROM { .. } => Cell::Rom(o),
                    MapInfo::WRAM { .. } => Cell::Wram(o),
                    MapInfo::SRAM { .. } => Cell::Sram(o),
                };
                let w = match d {
                    MapInfo::ROM { .. } => None,
                    _ => Some(c),
                };
                let ghost at = (dst + j) as int;
                assert(c == d.cell_at(at));
                assert(self.in_bounds(c));
                assert(read_after(r0[at], post, at) == Some(c));
                assert(write_after(w0[at], post, at) == w);
                let ghost before = *self;
                self.readable.set(dst + j, Some(c));
                self.writable.set(dst + j, w);
                assert forall|i: int| 0 <= i < MAP_SIZE implies #[trigger] self.tables_ok_at(i) by {
                    if i != at {
                        assert(before.tables_ok_at(i));
                    }
                }
                j = j + 1;
            }
            k = k + 1;
            assert forall|i: int| 0 <= i < MAP_SIZE implies #[trigger] self.readable@[i] == read_after(r0[i], info@.take(k as int), i)
                && self.writable@[i] == write_after(w0[i], info@.take(k as int), i) by {
                assert(info@.take(k as int) == post);
            }
        }
        assert(info@.take(k as int) =~= info@);
    }
}

} // verus!
