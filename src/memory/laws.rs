//! Properties of the decode tables: mirroring, open bus, read-only ROM.

use vstd::prelude::*;

use crate::cartridge::ROMType;

use super::{Cell, MapInfo, MemoryMap, MAP_SIZE, OPEN_BUS, read_after, write_after, read_target, write_target};
use super::layout::{
    layout_supported, low_bank, high_bank, lorom_bank, lorom_sram_bank, hirom_sram_bank, steps,
    wram_dirs, wram_mirror_dirs, lorom_chunk, lorom_dirs, lorom_rom_dirs, lorom_mirror_dirs,
    lorom_small_sram_dirs, lorom_large_sram_dirs, lorom_large_sram_dst, hirom_dirs, hirom_upper_dirs,
    hirom_upper_candidates, hirom_full_dirs, hirom_full_candidates, hirom_sram_dirs, rom_filter,
    lemma_steps,
};

verus! {

/// Applying `a` then `b` is applying `a + b`.
pub proof fn lemma_after_concat(base_r: Option<Cell>, base_w: Option<Cell>, a: Seq<MapInfo>, b: Seq<MapInfo>, i: int)
    ensures
        read_after(base_r, a + b, i) == read_after(read_after(base_r, a, i), b, i),
        write_after(base_w, a + b, i) == write_after(write_after(base_w, a, i), b, i),
    decreases b.len(),
{
    if b.len() == 0 {
        assert(a + b =~= a);
    } else {
        assert((a + b).drop_last() =~= a + b.drop_last());
        assert((a + b).last() == b.last());
        lemma_after_concat(base_r, base_w, a, b.drop_last(), i);
    }
}

/// Directives that do not cover `i` leave it as it was.
pub proof fn lemma_no_cover(base_r: Option<Cell>, base_w: Option<Cell>, ds: Seq<MapInfo>, i: int)
    requires
        forall|j: int| 0 <= j < ds.len() ==> !(#[trigger] ds[j]).covers(i),
    ensures
        read_after(base_r, ds, i) == base_r,
        write_after(base_w, ds, i) == base_w,
    decreases ds.len(),
{
    if ds.len() > 0 {
        assert(!ds[ds.len() - 1].covers(i));
        lemma_no_cover(base_r, base_w, ds.drop_last(), i);
    }
}

/// The last directive that covers `i` decides it.
pub proof fn lemma_last_cover(base_r: Option<Cell>, base_w: Option<Cell>, ds: Seq<MapInfo>, i: int, k: int)
    requires
        0 <= k < ds.len(),
        ds[k].covers(i),
        forall|j: int| k < j < ds.len() ==> !(#[trigger] ds[j]).covers(i),
    ensures
        read_after(base_r, ds, i) == Some(ds[k].cell_at(i)),
        write_after(base_w, ds, i) == match ds[k] {
            MapInfo::ROM { .. } => None,
            _ => Some(ds[k].cell_at(i)),
        },
    decreases ds.len(),
{
    if k < ds.len() - 1 {
        assert(!ds[ds.len() - 1].covers(i));
        lemma_last_cover(base_r, base_w, ds.drop_last(), i, k);
    }
}

/// An address between `lo` and `hi` of bank `b` lies in bank `b`, at that offset.
proof fn lemma_in_bank(i: int, b: int, lo: int, hi: int)
    requires
        0 <= lo <= hi <= 0x10000,
        b * 0x10000 + lo <= i < b * 0x10000 + hi,
    ensures
        i / 0x10000 == b,
        lo <= i % 0x10000 < hi,
{
    vstd::arithmetic::div_mod::lemma_fundamental_div_mod_converse(i, 0x10000, b, i - b * 0x10000);
}

proof fn lemma_wram_footprint(i: int, j: int)
    requires
        0 <= j < wram_dirs().len(),
        wram_dirs()[j].covers(i),
    ensures
        j < 0x80 ==> i / 0x10000 == low_bank(j) && i % 0x10000 < 0x2000,
        j == 0x80 ==> 0x7E0000 <= i < 0x800000,
{
    if j < 0x80 {
        assert(wram_dirs()[j] == wram_mirror_dirs()[j]);
        lemma_in_bank(i, low_bank(j), 0, 0x2000);
    }
}

proof fn lemma_lorom_rom_footprint(rom_len: nat, i: int, j: int)
    requires
        0 <= j < lorom_rom_dirs(rom_len).len(),
        lorom_rom_dirs(rom_len)[j].covers(i),
    ensures
        i / 0x10000 == lorom_bank(j),
        i % 0x10000 >= 0x8000,
{
    lemma_in_bank(i, lorom_bank(j), 0x8000, 0x10000);
}

proof fn lemma_lorom_mirror_footprint(rom_len: nat, i: int, j: int)
    requires
        0 <= j < lorom_mirror_dirs(rom_len).len(),
        lorom_mirror_dirs(rom_len)[j].covers(i),
    ensures
        i / 0x10000 == high_bank(j),
        i % 0x10000 < 0x8000,
{
    lemma_in_bank(i, high_bank(j), 0, 0x8000);
}

proof fn lemma_lorom_small_sram_footprint(sram_len: nat, i: int, j: int)
    requires
        0 < sram_len <= 0x8000,
        0 <= j < lorom_small_sram_dirs(sram_len).len(),
        lorom_small_sram_dirs(sram_len)[j].covers(i),
    ensures
        0x70 <= i / 0x10000 < 0x7E || 0xF0 <= i / 0x10000,
{
    let n = steps(0x8000, sram_len as int);
    assert(n >= 1) by {
        vstd::arithmetic::div_mod::lemma_div_by_self(sram_len as int);
        vstd::arithmetic::div_mod::lemma_div_is_ordered(sram_len as int, 0x8000 + sram_len - 1, sram_len as int);
    }
    let k = j / n;
    let t = j % n;
    assert(0 <= k < 0x1E) by {
        vstd::arithmetic::div_mod::lemma_multiply_divide_lt(j, n, 0x1E);
        vstd::arithmetic::div_mod::lemma_div_pos_is_pos(j, n);
    }
    assert(0 <= t < n) by {
        vstd::arithmetic::div_mod::lemma_mod_bound(j, n);
    }
    lemma_steps(0x8000, sram_len as int, t);
    assert(0 <= t * sram_len) by (nonlinear_arith)
        requires 0 <= t, 0 < sram_len;
    lemma_in_bank(i, lorom_sram_bank(k), t * sram_len, t * sram_len + sram_len);
}

/// Every save RAM block that LoROM places from `0x700000` on ends by `0x800000`.
pub open spec fn lorom_sram_ends_below_bank_80(sram_len: nat) -> bool {
    forall|j: int| 0 <= j && #[trigger] (j * sram_len) < 0xE0000 ==> j * sram_len + sram_len <= 0x100000
}

proof fn lemma_lorom_large_sram_footprint(sram_len: nat, i: int, j: int)
    requires
        0x8000 < sram_len,
        0 <= j < lorom_large_sram_dirs(sram_len).len(),
        lorom_large_sram_dirs(sram_len)[j].covers(i),
    ensures
        0x700000 <= i,
        lorom_sram_ends_below_bank_80(sram_len) ==> i < 0x800000 || 0xF00000 <= i,
{
    lemma_steps(0x1E0000, sram_len as int, j);
    assert(0 <= j * sram_len) by (nonlinear_arith)
        requires 0 <= j, 0 < sram_len;
}

/// Each directive that a filter keeps is a candidate that passes it.
proof fn lemma_filter_source(c: Seq<MapInfo>, p: spec_fn(MapInfo) -> bool, j: int) -> (idx: int)
    requires
        0 <= j < c.filter(p).len(),
    ensures
        0 <= idx < c.len(),
        c[idx] == c.filter(p)[j],
        p(c[idx]),
    decreases c.len(),
{
    reveal(Seq::filter);
    let sub = c.drop_last().filter(p);
    if p(c.last()) && j == sub.len() {
        c.len() - 1
    } else {
        let k = lemma_filter_source(c.drop_last(), p, j);
        k
    }
}

proof fn lemma_hirom_upper_footprint(rom_len: nat, i: int, j: int)
    requires
        0 <= j < hirom_upper_dirs(rom_len).len(),
        hirom_upper_dirs(rom_len)[j].covers(i),
    ensures
        0 <= i / 0x10000 < 0x40 || 0x80 <= i / 0x10000 < 0xC0,
        i % 0x10000 >= 0x8000,
{
    let idx = lemma_filter_source(hirom_upper_candidates(), rom_filter(rom_len), j);
    lemma_in_bank(i, low_bank(idx), 0x8000, 0x10000);
}

proof fn lemma_hirom_full_footprint(rom_len: nat, i: int, j: int)
    requires
        0 <= j < hirom_full_dirs(rom_len).len(),
        hirom_full_dirs(rom_len)[j].covers(i),
    ensures
        0x40 <= i / 0x10000 < 0x7E || 0xC0 <= i / 0x10000,
        (i / 0x10000) % 0x40 * 0x10000 < rom_len,
{
    let idx = lemma_filter_source(hirom_full_candidates(), rom_filter(rom_len), j);
    lemma_in_bank(i, high_bank(idx), 0, 0x10000);
}

proof fn lemma_hirom_sram_footprint(sram_len: nat, i: int, j: int)
    requires
        sram_len <= 0x2000,
        0 <= j < hirom_sram_dirs(sram_len).len(),
        hirom_sram_dirs(sram_len)[j].covers(i),
    ensures
        0x20 <= i / 0x10000 < 0x40 || 0xA0 <= i / 0x10000 < 0xC0,
        i % 0x10000 >= 0x6000,
{
    let n = steps(0x2000, sram_len as int);
    assert(n >= 1) by {
        vstd::arithmetic::div_mod::lemma_div_by_self(sram_len as int);
        vstd::arithmetic::div_mod::lemma_div_is_ordered(sram_len as int, 0x2000 + sram_len - 1, sram_len as int);
    }
    let k = j / n;
    let t = j % n;
    assert(0 <= k < 0x40) by {
        vstd::arithmetic::div_mod::lemma_multiply_divide_lt(j, n, 0x40);
        vstd::arithmetic::div_mod::lemma_div_pos_is_pos(j, n);
    }
    assert(0 <= t < n) by {
        vstd::arithmetic::div_mod::lemma_mod_bound(j, n);
    }
    lemma_steps(0x2000, sram_len as int, t);
    assert(0 <= t * sram_len) by (nonlinear_arith)
        requires 0 <= t, 0 < sram_len;
    lemma_in_bank(i, hirom_sram_bank(k), 0x6000 + t * sram_len, 0x6000 + t * sram_len + sram_len);
}

/// Working RAM's directives do not reach an address of banks `0x40..=0x7D` or
/// `0xC0..=0xFF`, nor the upper half of any bank.
proof fn lemma_wram_misses(i: int)
    requires
        0x40 <= i / 0x10000 < 0x7E || 0xC0 <= i / 0x10000 || i % 0x10000 >= 0x2000 && !(0x7E0000 <= i < 0x800000),
    ensures
        read_after(None, wram_dirs(), i) is None,
        write_after(None, wram_dirs(), i) is None,
{
    let w = wram_dirs();
    assert forall|j: int| 0 <= j < w.len() implies !(#[trigger] w[j]).covers(i) by {
        if w[j].covers(i) {
            lemma_wram_footprint(i, j);
            if j == 0x80 {
                lemma_in_bank(i, i / 0x10000, 0, 0x10000);
            }
        }
    }
    lemma_no_cover(None, None, w, i);
}

/// The low 8 KiB of banks `0x00..=0x3F` and `0x80..=0xBF` show the first 8 KiB of working
/// RAM, for reads and for writes, in both modes; so every such bank reaches the same cells
/// as bank `0x00` and as bank `0x7E`. In LoROM with save RAM over 32 KiB this needs every
/// save RAM block that starts below `0x7E0000` to end by `0x800000`.
pub proof fn lemma_low_wram_mirror(mode: ROMType, rom_len: nat, sram_len: nat, i: int)
    requires
        layout_supported(mode, rom_len, sram_len),
        0 <= i < MAP_SIZE,
        i / 0x10000 < 0x40 || (0x80 <= i / 0x10000 < 0xC0),
        i % 0x10000 < 0x2000,
        mode == ROMType::LoROM && sram_len > 0x8000 ==> lorom_sram_ends_below_bank_80(sram_len),
    ensures
        read_target(mode, rom_len, sram_len, i) == Some(Cell::Wram((i % 0x10000) as u32)),
        write_target(mode, rom_len, sram_len, i) == Some(Cell::Wram((i % 0x10000) as u32)),
{
    let b = i / 0x10000;
    let k = if b < 0x40 { b } else { b - 0x40 };
    let w = wram_dirs();
    assert(w[k] == wram_mirror_dirs()[k]);
    assert(w[k].covers(i));
    assert forall|j: int| k < j < w.len() implies !(#[trigger] w[j]).covers(i) by {
        if w[j].covers(i) {
            lemma_wram_footprint(i, j);
        }
    }
    lemma_last_cover(None, None, w, i, k);
    let r1 = read_after(None, w, i);
    let w1 = write_after(None, w, i);
    match mode {
        ROMType::LoROM => {
            let a = lorom_rom_dirs(rom_len);
            let m = if sram_len == 0 {
                lorom_mirror_dirs(rom_len)
            } else if sram_len <= 0x8000 {
                lorom_small_sram_dirs(sram_len)
            } else {
                lorom_large_sram_dirs(sram_len)
            };
            assert(lorom_dirs(rom_len, sram_len) == a + m);
            lemma_after_concat(None, None, w, a + m, i);
            lemma_after_concat(r1, w1, a, m, i);
            assert forall|j: int| 0 <= j < a.len() implies !(#[trigger] a[j]).covers(i) by {
                if a[j].covers(i) {
                    lemma_lorom_rom_footprint(rom_len, i, j);
                }
            }
            assert forall|j: int| 0 <= j < m.len() implies !(#[trigger] m[j]).covers(i) by {
                if m[j].covers(i) {
                    if sram_len == 0 {
                        lemma_lorom_mirror_footprint(rom_len, i, j);
                    } else if sram_len <= 0x8000 {
                        lemma_lorom_small_sram_footprint(sram_len, i, j);
                    } else {
                        lemma_lorom_large_sram_footprint(sram_len, i, j);
                        lemma_in_bank(i, i / 0x10000, 0, 0x10000);
                    }
                }
            }
            lemma_no_cover(r1, w1, a, i);
            lemma_no_cover(r1, w1, m, i);
        },
        ROMType::HiROM => {
            let u = hirom_upper_dirs(rom_len);
            let f = hirom_full_dirs(rom_len);
            let sr = hirom_sram_dirs(sram_len);
            lemma_after_concat(None, None, w, u + f + sr, i);
            lemma_after_concat(r1, w1, u + f, sr, i);
            lemma_after_concat(r1, w1, u, f, i);
            assert forall|j: int| 0 <= j < u.len() implies !(#[trigger] u[j]).covers(i) by {
                if u[j].covers(i) {
                    lemma_hirom_upper_footprint(rom_len, i, j);
                }
            }
            assert forall|j: int| 0 <= j < f.len() implies !(#[trigger] f[j]).covers(i) by {
                if f[j].covers(i) {
                    lemma_hirom_full_footprint(rom_len, i, j);
                }
            }
            assert forall|j: int| 0 <= j < sr.len() implies !(#[trigger] sr[j]).covers(i) by {
                if sr[j].covers(i) {
                    lemma_hirom_sram_footprint(sram_len, i, j);
                }
            }
            lemma_no_cover(r1, w1, u, i);
            lemma_no_cover(r1, w1, f, i);
            lemma_no_cover(r1, w1, sr, i);
        },
    }
}

/// HiROM: an address of banks `0x40..=0x7D` or `0xC0..=0xFF` whose 64 KiB chunk starts at
/// or past the end of the ROM is backed by nothing, for reads and for writes.
pub proof fn lemma_hirom_unbacked(rom_len: nat, sram_len: nat, i: int)
    requires
        layout_supported(ROMType::HiROM, rom_len, sram_len),
        0 <= i < MAP_SIZE,
        0x40 <= i / 0x10000 < 0x7E || 0xC0 <= i / 0x10000,
        (i / 0x10000) % 0x40 * 0x10000 >= rom_len,
    ensures
        read_target(ROMType::HiROM, rom_len, sram_len, i) is None,
        write_target(ROMType::HiROM, rom_len, sram_len, i) is None,
{
    let w = wram_dirs();
    lemma_wram_misses(i);
    let r1 = read_after(None, w, i);
    let w1 = write_after(None, w, i);
    let u = hirom_upper_dirs(rom_len);
    let f = hirom_full_dirs(rom_len);
    let sr = hirom_sram_dirs(sram_len);
    lemma_after_concat(None, None, w, u + f + sr, i);
    lemma_after_concat(r1, w1, u + f, sr, i);
    lemma_after_concat(r1, w1, u, f, i);
    assert forall|j: int| 0 <= j < u.len() implies !(#[trigger] u[j]).covers(i) by {
        if u[j].covers(i) {
            lemma_hirom_upper_footprint(rom_len, i, j);
        }
    }
    assert forall|j: int| 0 <= j < f.len() implies !(#[trigger] f[j]).covers(i) by {
        if f[j].covers(i) {
            lemma_hirom_full_footprint(rom_len, i, j);
        }
    }
    assert forall|j: int| 0 <= j < sr.len() implies !(#[trigger] sr[j]).covers(i) by {
        if sr[j].covers(i) {
            lemma_hirom_sram_footprint(sram_len, i, j);
        }
    }
    lemma_no_cover(r1, w1, u, i);
    lemma_no_cover(r1, w1, f, i);
    lemma_no_cover(r1, w1, sr, i);
}

/// LoROM without save RAM: the upper half of banks `0x00..=0x7D` and `0x80..=0xFF` shows
/// 32 KiB chunk `(bank & 0x7F) mod chunks` of the ROM, for reads only.
pub proof fn lemma_lorom_upper_half(rom_len: nat, i: int)
    requires
        layout_supported(ROMType::LoROM, rom_len, 0),
        rom_len / 0x8000 > 0,
        0 <= i < MAP_SIZE,
        i / 0x10000 < 0x7E || 0x80 <= i / 0x10000,
        i % 0x10000 >= 0x8000,
    ensures
        read_target(ROMType::LoROM, rom_len, 0, i) == Some(
            Cell::Rom((lorom_chunk(i / 0x10000, rom_len) * 0x8000 + i % 0x10000 - 0x8000) as u32),
        ),
        write_target(ROMType::LoROM, rom_len, 0, i) is None,
{
    let b = i / 0x10000;
    let w = wram_dirs();
    lemma_wram_misses(i);
    let r1 = read_after(None, w, i);
    let w1 = write_after(None, w, i);
    let a = lorom_rom_dirs(rom_len);
    let m = lorom_mirror_dirs(rom_len);
    lemma_after_concat(None, None, w, a + m, i);
    lemma_after_concat(r1, w1, a, m, i);
    let k = if b < 0x7E { b } else { b - 2 };
    assert(a[k].covers(i));
    assert forall|j: int| k < j < a.len() implies !(#[trigger] a[j]).covers(i) by {
        if a[j].covers(i) {
            lemma_lorom_rom_footprint(rom_len, i, j);
        }
    }
    lemma_last_cover(r1, w1, a, i, k);
    assert forall|j: int| 0 <= j < m.len() implies !(#[trigger] m[j]).covers(i) by {
        if m[j].covers(i) {
            lemma_lorom_mirror_footprint(rom_len, i, j);
        }
    }
    lemma_no_cover(read_after(r1, a, i), write_after(w1, a, i), m, i);
}

/// LoROM without save RAM: the lower half of banks `0x40..=0x7D` and `0xC0..=0xFF`
/// mirrors the upper half of the same bank.
pub proof fn lemma_lorom_lower_half_mirror(rom_len: nat, i: int)
    requires
        layout_supported(ROMType::LoROM, rom_len, 0),
        rom_len / 0x8000 > 0,
        0 <= i < MAP_SIZE,
        0x40 <= i / 0x10000 < 0x7E || 0xC0 <= i / 0x10000,
        i % 0x10000 < 0x8000,
    ensures
        read_target(ROMType::LoROM, rom_len, 0, i) == read_target(ROMType::LoROM, rom_len, 0, i + 0x8000),
        read_target(ROMType::LoROM, rom_len, 0, i) is Some,
{
    let b = i / 0x10000;
    lemma_in_bank(i, b, 0, 0x8000);
    lemma_in_bank(i + 0x8000, b, 0x8000, 0x10000);
    lemma_lorom_upper_half(rom_len, i + 0x8000);
    let w = wram_dirs();
    lemma_wram_misses(i);
    let r1 = read_after(None, w, i);
    let w1 = write_after(None, w, i);
    let a = lorom_rom_dirs(rom_len);
    let m = lorom_mirror_dirs(rom_len);
    lemma_after_concat(None, None, w, a + m, i);
    lemma_after_concat(r1, w1, a, m, i);
    assert forall|j: int| 0 <= j < a.len() implies !(#[trigger] a[j]).covers(i) by {
        if a[j].covers(i) {
            lemma_lorom_rom_footprint(rom_len, i, j);
        }
    }
    lemma_no_cover(r1, w1, a, i);
    let k = if b < 0x7E { b - 0x40 } else { b - 0xC0 + 0x3E };
    assert(m[k].covers(i));
    assert forall|j: int| k < j < m.len() implies !(#[trigger] m[j]).covers(i) by {
        if m[j].covers(i) {
            lemma_lorom_mirror_footprint(rom_len, i, j);
        }
    }
    lemma_last_cover(r1, w1, m, i, k);
}

/// LoROM without save RAM: an upper-half address and the address `0x400000` away from it
/// (bit 22 flipped) read the same cell when their banks show the same ROM chunk.
pub proof fn lemma_lorom_bank_mirror(rom_len: nat, a: u32)
    requires
        layout_supported(ROMType::LoROM, rom_len, 0),
        rom_len / 0x8000 > 0,
        a < 0x1000000,
        a % 0x10000 >= 0x8000,
        a / 0x10000 < 0x7E || 0x80 <= a / 0x10000,
        (a ^ 0x400000) / 0x10000 < 0x7E || 0x80 <= (a ^ 0x400000) / 0x10000,
        lorom_chunk((a / 0x10000) as int, rom_len) == lorom_chunk(((a ^ 0x400000) / 0x10000) as int, rom_len),
    ensures
        read_target(ROMType::LoROM, rom_len, 0, a as int) == read_target(ROMType::LoROM, rom_len, 0, (a ^ 0x400000) as int),
{
    assert(a < 0x1000000 ==> (a ^ 0x400000) < 0x1000000 && (a ^ 0x400000) % 0x10000 == a % 0x10000) by (bit_vector);
    lemma_lorom_upper_half(rom_len, a as int);
    lemma_lorom_upper_half(rom_len, (a ^ 0x400000) as int);
}

/// In a map built for LoROM without save RAM, an upper-half address and the address
/// `0x400000` away read the same byte when their banks show the same ROM chunk.
pub proof fn lemma_lorom_mirror_reads(m: MemoryMap, rom_len: nat, a: u32)
    requires
        m.decodes_as(ROMType::LoROM, rom_len, 0),
        layout_supported(ROMType::LoROM, rom_len, 0),
        rom_len / 0x8000 > 0,
        a < 0x1000000,
        a % 0x10000 >= 0x8000,
        a / 0x10000 < 0x7E || 0x80 <= a / 0x10000,
        (a ^ 0x400000) / 0x10000 < 0x7E || 0x80 <= (a ^ 0x400000) / 0x10000,
        lorom_chunk((a / 0x10000) as int, rom_len) == lorom_chunk(((a ^ 0x400000) / 0x10000) as int, rom_len),
    ensures
        m.read_value(a as int) == m.read_value((a ^ 0x400000) as int),
{
    assert(a < 0x1000000 ==> (a ^ 0x400000) < 0x1000000) by (bit_vector);
    lemma_lorom_bank_mirror(rom_len, a);
}

/// In a map built for LoROM without save RAM, the lower half of banks `0x40..=0x7D` and
/// `0xC0..=0xFF` reads what the upper half of the same bank reads.
pub proof fn lemma_lorom_half_mirror_reads(m: MemoryMap, rom_len: nat, i: int)
    requires
        m.decodes_as(ROMType::LoROM, rom_len, 0),
        layout_supported(ROMType::LoROM, rom_len, 0),
        rom_len / 0x8000 > 0,
        0 <= i < MAP_SIZE,
        0x40 <= i / 0x10000 < 0x7E || 0xC0 <= i / 0x10000,
        i % 0x10000 < 0x8000,
    ensures
        m.read_value(i) == m.read_value(i + 0x8000),
{
    lemma_in_bank(i, i / 0x10000, 0, 0x8000);
    lemma_lorom_lower_half_mirror(rom_len, i);
}

/// In a map built for either mode, a write through the low 8 KiB of one bank of
/// `0x00..=0x3F` or `0x80..=0xBF` is read back through the same offset of any other.
pub proof fn lemma_wram_mirror_write_read(
    before: MemoryMap,
    after: MemoryMap,
    mode: ROMType,
    rom_len: nat,
    sram_len: nat,
    i: int,
    j: int,
    v: u8,
)
    requires
        before.wf(),
        before.decodes_as(mode, rom_len, sram_len),
        layout_supported(mode, rom_len, sram_len),
        mode == ROMType::LoROM && sram_len > 0x8000 ==> lorom_sram_ends_below_bank_80(sram_len),
        0 <= i < MAP_SIZE,
        0 <= j < MAP_SIZE,
        i / 0x10000 < 0x40 || (0x80 <= i / 0x10000 < 0xC0),
        j / 0x10000 < 0x40 || (0x80 <= j / 0x10000 < 0xC0),
        i % 0x10000 < 0x2000,
        j % 0x10000 == i % 0x10000,
        after.is_write_of(before, i, v),
    ensures
        after.read_value(j) == v,
{
    lemma_low_wram_mirror(mode, rom_len, sram_len, i);
    lemma_low_wram_mirror(mode, rom_len, sram_len, j);
    MemoryMap::lemma_write_through_mirror(before, after, i, j, v);
}

/// In a map built for HiROM, an address of banks `0x40..=0x7D` or `0xC0..=0xFF` whose
/// 64 KiB chunk starts at or past the end of the ROM reads the open-bus value, and a write
/// to it changes no byte.
pub proof fn lemma_hirom_open_bus(before: MemoryMap, after: MemoryMap, rom_len: nat, sram_len: nat, i: int, v: u8)
    requires
        before.wf(),
        before.decodes_as(ROMType::HiROM, rom_len, sram_len),
        layout_supported(ROMType::HiROM, rom_len, sram_len),
        0 <= i < MAP_SIZE,
        0x40 <= i / 0x10000 < 0x7E || 0xC0 <= i / 0x10000,
        (i / 0x10000) % 0x40 * 0x10000 >= rom_len,
        after.is_write_of(before, i, v),
    ensures
        before.read_value(i) == OPEN_BUS,
        after.read_value(i) == OPEN_BUS,
        after.rom_bytes() == before.rom_bytes(),
        after.wram_bytes() == before.wram_bytes(),
        after.sram_bytes() == before.sram_bytes(),
{
    lemma_hirom_unbacked(rom_len, sram_len, i);
    MemoryMap::lemma_unbacked_is_open_bus(before, after, i, v);
}

} // verus!
