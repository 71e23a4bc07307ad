//! Mapping directives: for each mode, which runs of ROM, working RAM and save RAM are
//! made visible where in the flat space, and in which order.

use vstd::prelude::*;

use crate::cartridge::ROMType;

use super::{MapInfo, MAP_SIZE, WRAM_SIZE};

verus! {

/// Banks `0x00..=0x3F` then `0x80..=0xBF`, by position.
pub open spec fn low_bank(k: int) -> int {
    if k < 0x40 { k } else { k + 0x40 }
}

/// Banks `0x40..=0x7D` then `0xC0..=0xFF`, by position.
pub open spec fn high_bank(k: int) -> int {
    if k < 0x3E { 0x40 + k } else { 0xC0 + (k - 0x3E) }
}

/// Banks `0x00..=0x7D` then `0x80..=0xFF`, by position.
pub open spec fn lorom_bank(k: int) -> int {
    if k < 0x7E { k } else { k + 2 }
}

/// Banks `0x70..=0x7D` then `0xF0..=0xFF`, by position.
pub open spec fn lorom_sram_bank(k: int) -> int {
    if k < 0x0E { 0x70 + k } else { 0xF0 + (k - 0x0E) }
}

/// Banks `0x20..=0x3F` then `0xA0..=0xBF`, by position.
pub open spec fn hirom_sram_bank(k: int) -> int {
    if k < 0x20 { 0x20 + k } else { 0xA0 + (k - 0x20) }
}

/// How many steps of `size` start below `span`.
pub open spec fn steps(span: int, size: int) -> int {
    (span + size - 1) / size
}

/// The first 8 KiB of working RAM in the low 8 KiB of banks `0x00..=0x3F` and
/// `0x80..=0xBF`, then all of working RAM at banks `0x7E..=0x7F`.
pub open spec fn wram_dirs() -> Seq<MapInfo> {
    wram_mirror_dirs().push(MapInfo::WRAM { src: 0, dst: 0x7E0000, len: WRAM_SIZE })
}

pub open spec fn wram_mirror_dirs() -> Seq<MapInfo> {
    Seq::new(0x80, |k: int| MapInfo::WRAM { src: 0, dst: (low_bank(k) * 0x10000) as usize, len: 0x2000 })
}

/// The 32 KiB chunk of ROM that bank `bank` shows in LoROM: the bank's low seven bits,
/// modulo the number of whole chunks in the ROM.
pub open spec fn lorom_chunk(bank: int, rom_len: nat) -> int {
    (bank % 0x80) % (rom_len / 0x8000) as int
}

/// LoROM: a ROM chunk in the upper half of banks `0x00..=0x7D` and `0x80..=0xFF`.
pub open spec fn lorom_rom_dirs(rom_len: nat) -> Seq<MapInfo> {
    if rom_len / 0x8000 == 0 {
        Seq::empty()
    } else {
        Seq::new(254, |k: int| MapInfo::ROM {
            src: (lorom_chunk(lorom_bank(k), rom_len) * 0x8000) as usize,
            dst: (lorom_bank(k) * 0x10000 + 0x8000) as usize,
            len: 0x8000,
        })
    }
}

/// LoROM without save RAM: the same chunk in the lower half of banks `0x40..=0x7D`
/// and `0xC0..=0xFF`.
pub open spec fn lorom_mirror_dirs(rom_len: nat) -> Seq<MapInfo> {
    if rom_len / 0x8000 == 0 {
        Seq::empty()
    } else {
        Seq::new(126, |k: int| MapInfo::ROM {
            src: (lorom_chunk(high_bank(k), rom_len) * 0x8000) as usize,
            dst: (high_bank(k) * 0x10000) as usize,
            len: 0x8000,
        })
    }
}

/// LoROM with save RAM of at most 32 KiB: copies of it side by side over the lower
/// half of banks `0x70..=0x7D` and `0xF0..=0xFF`.
pub open spec fn lorom_small_sram_dirs(sram_len: nat) -> Seq<MapInfo> {
    let n = steps(0x8000, sram_len as int);
    Seq::new((0x1E * n) as nat, |j: int| MapInfo::SRAM {
        src: 0,
        dst: (lorom_sram_bank(j / n) * 0x10000 + (j % n) * sram_len) as usize,
        len: sram_len as usize,
    })
}

/// The flat address at position `p` of the ranges `0x700000..=0x7DFFFF` and
/// `0xF00000..=0xFFFFFF` taken one after the other.
pub open spec fn lorom_large_sram_dst(p: int) -> int {
    if p < 0xE0000 { 0x700000 + p } else { 0xF00000 + (p - 0xE0000) }
}

/// LoROM with save RAM over 32 KiB: copies of it in steps of its size over the ranges
/// `0x700000..=0x7DFFFF` and `0xF00000..=0xFFFFFF` taken one after the other.
pub open spec fn lorom_large_sram_dirs(sram_len: nat) -> Seq<MapInfo> {
    Seq::new(steps(0x1E0000, sram_len as int) as nat, |j: int| MapInfo::SRAM {
        src: 0,
        dst: lorom_large_sram_dst(j * sram_len) as usize,
        len: sram_len as usize,
    })
}

pub open spec fn lorom_dirs(rom_len: nat, sram_len: nat) -> Seq<MapInfo> {
    lorom_rom_dirs(rom_len) + if sram_len == 0 {
        lorom_mirror_dirs(rom_len)
    } else if sram_len <= 0x8000 {
        lorom_small_sram_dirs(sram_len)
    } else {
        lorom_large_sram_dirs(sram_len)
    }
}

/// A ROM directive whose source starts inside the ROM.
pub open spec fn rom_present(d: MapInfo, rom_len: nat) -> bool {
    d.src() < rom_len
}

pub open spec fn rom_filter(rom_len: nat) -> spec_fn(MapInfo) -> bool {
    |d: MapInfo| rom_present(d, rom_len)
}

/// HiROM: the upper 32 KiB of 64 KiB chunk `bank & 0x3F` in the upper half of banks
/// `0x00..=0x3F` and `0x80..=0xBF`, where that part of the ROM exists.
pub open spec fn hirom_upper_dirs(rom_len: nat) -> Seq<MapInfo> {
    hirom_upper_candidates().filter(rom_filter(rom_len))
}

pub open spec fn hirom_upper_candidates() -> Seq<MapInfo> {
    Seq::new(0x80, |k: int| MapInfo::ROM {
        src: ((low_bank(k) % 0x40) * 0x10000 + 0x8000) as usize,
        dst: (low_bank(k) * 0x10000 + 0x8000) as usize,
        len: 0x8000,
    })
}

/// HiROM: all of 64 KiB chunk `bank & 0x3F` in banks `0x40..=0x7D` and `0xC0..=0xFF`,
/// where that chunk exists.
pub open spec fn hirom_full_dirs(rom_len: nat) -> Seq<MapInfo> {
    hirom_full_candidates().filter(rom_filter(rom_len))
}

pub open spec fn hirom_full_candidates() -> Seq<MapInfo> {
    Seq::new(126, |k: int| MapInfo::ROM {
        src: ((high_bank(k) % 0x40) * 0x10000) as usize,
        dst: (high_bank(k) * 0x10000) as usize,
        len: 0x10000,
    })
}

/// HiROM with save RAM: copies of it side by side over `0x6000..=0x7FFF` of banks
/// `0x20..=0x3F` and `0xA0..=0xBF`.
pub open spec fn hirom_sram_dirs(sram_len: nat) -> Seq<MapInfo> {
    if sram_len == 0 {
        Seq::empty()
    } else {
        let n = steps(0x2000, sram_len as int);
        Seq::new((0x40 * n) as nat, |j: int| MapInfo::SRAM {
            src: 0,
            dst: (hirom_sram_bank(j / n) * 0x10000 + 0x6000 + (j % n) * sram_len) as usize,
            len: sram_len as usize,
        })
    }
}

pub open spec fn hirom_dirs(rom_len: nat, sram_len: nat) -> Seq<MapInfo> {
    hirom_upper_dirs(rom_len) + hirom_full_dirs(rom_len) + hirom_sram_dirs(sram_len)
}

/// The directives for a cartridge, in the order they are applied: working RAM first,
/// then the mode's ROM, then its save RAM.
pub open spec fn directives(mode: ROMType, rom_len: nat, sram_len: nat) -> Seq<MapInfo> {
    wram_dirs() + match mode {
        ROMType::LoROM => lorom_dirs(rom_len, sram_len),
        ROMType::HiROM => hirom_dirs(rom_len, sram_len),
    }
}

/// The sizes a mode can map. LoROM reaches 4 MiB of ROM, and save RAM over 32 KiB must
/// tile its two ranges exactly; HiROM reaches 8 KiB of save RAM, and a chunk that it
/// maps must lie whole in the ROM.
pub open spec fn layout_supported(mode: ROMType, rom_len: nat, sram_len: nat) -> bool {
    match mode {
        ROMType::LoROM => rom_len <= 0x400000 && (sram_len <= 0x8000 || (0x1E0000 as nat) % sram_len == 0),
        ROMType::HiROM => sram_len <= 0x2000 && (rom_len % 0x10000 == 0 || rom_len >= 0x400000),
    }
}

/// Whether a mode can lay out a ROM of `rom_len` bytes and save RAM of `sram_len` bytes.
pub fn layout_is_supported(mode: ROMType, rom_len: usize, sram_len: usize) -> (r: bool)
    ensures
        r == layout_supported(mode, rom_len as nat, sram_len as nat),
{
    match mode {
        ROMType::LoROM => rom_len <= 0x400000 && (sram_len <= 0x8000 || 0x1E0000 % sram_len == 0),
        ROMType::HiROM => sram_len <= 0x2000 && (rom_len % 0x10000 == 0 || rom_len >= 0x400000),
    }
}

/// The whole directive list fits the regions and the flat space.
pub open spec fn all_fit(ds: Seq<MapInfo>, rom_len: nat, sram_len: nat) -> bool {
    forall|k: int| 0 <= k < ds.len() ==> (#[trigger] ds[k]).fits(rom_len, sram_len)
}


/// A step of `size` that starts below `span` ends at most `size - 1` past it.
pub(crate) proof fn lemma_steps(span: int, size: int, t: int)
    requires
        0 < size,
        0 <= span,
        0 <= t < steps(span, size),
    ensures
        t * size < span,
        t * size + size <= span + size - 1,
{
    let n = steps(span, size);
    vstd::arithmetic::div_mod::lemma_fundamental_div_mod(span + size - 1, size);
    let r = (span + size - 1) % size;
    assert(n * size + r == span + size - 1) by (nonlinear_arith)
        requires
            span + size - 1 == size * n + r,
    {
    }
    assert(t * size + size <= n * size) by (nonlinear_arith)
        requires
            t + 1 <= n,
            0 < size,
    {
    }
}

/// Where `size` divides `span`, a step that starts below `span` ends at most at `span`.
proof fn lemma_steps_exact(span: int, size: int, t: int)
    requires
        0 < size,
        0 <= span,
        span % size == 0,
        0 <= t,
        t * size < span,
    ensures
        t * size + size <= span,
{
    vstd::arithmetic::div_mod::lemma_fundamental_div_mod(span, size);
    let m = span / size;
    assert(t * size + size <= span) by (nonlinear_arith)
        requires
            span == size * m,
            t * size < span,
            0 < size,
            0 <= t,
    {
    }
}

proof fn lemma_all_fit_concat(a: Seq<MapInfo>, b: Seq<MapInfo>, rom_len: nat, sram_len: nat)
    requires
        all_fit(a, rom_len, sram_len),
        all_fit(b, rom_len, sram_len),
    ensures
        all_fit(a + b, rom_len, sram_len),
{
    assert forall|k: int| 0 <= k < (a + b).len() implies (#[trigger] (a + b)[k]).fits(rom_len, sram_len) by {
        if k < a.len() {
            assert((a + b)[k] == a[k]);
        } else {
            assert((a + b)[k] == b[k - a.len()]);
        }
    }
}

/// One more candidate, kept or dropped by the filter.
proof fn lemma_filter_step(c: Seq<MapInfo>, k: int, p: spec_fn(MapInfo) -> bool)
    requires
        0 <= k < c.len(),
    ensures
        c.take(k + 1).filter(p) == if p(c[k]) {
            c.take(k).filter(p).push(c[k])
        } else {
            c.take(k).filter(p)
        },
{
    reveal(Seq::filter);
    assert(c.take(k + 1).drop_last() =~= c.take(k));
}

fn push_wram_dirs(v: &mut Vec<MapInfo>)
    ensures
        final(v)@ == old(v)@ + wram_dirs(),
{
    let ghost pre = v@;
    let mut k: usize = 0;
    while k < 0x80
        invariant
            k <= 0x80,
            v@ == pre + wram_mirror_dirs().take(k as int),
        decreases 0x80 - k,
    {
        let bank: usize = if k < 0x40 { k } else { k + 0x40 };
        v.push(MapInfo::WRAM { src: 0, dst: bank * 0x10000, len: 0x2000 });
        assert(wram_mirror_dirs().take(k + 1) =~= wram_mirror_dirs().take(k as int).push(wram_mirror_dirs()[k as int]));
        k = k + 1;
    }
    assert(wram_mirror_dirs().take(0x80) =~= wram_mirror_dirs());
    v.push(MapInfo::WRAM { src: 0, dst: 0x7E0000, len: WRAM_SIZE });
}

proof fn lemma_wram_fit(rom_len: nat, sram_len: nat)
    ensures
        all_fit(wram_dirs(), rom_len, sram_len),
{
}

fn push_lorom_rom_dirs(v: &mut Vec<MapInfo>, rom_len: usize)
    ensures
        final(v)@ == old(v)@ + lorom_rom_dirs(rom_len as nat),
        all_fit(lorom_rom_dirs(rom_len as nat), rom_len as nat, 0),
{
    let n = rom_len / 0x8000;
    if n == 0 {
        assert(v@ =~= v@ + Seq::<MapInfo>::empty());
        return;
    }
    let ghost pre = v@;
    let ghost fam = lorom_rom_dirs(rom_len as nat);
    let mut k: usize = 0;
    while k < 254
        invariant
            k <= 254,
            n == rom_len / 0x8000,
            n > 0,
            fam == lorom_rom_dirs(rom_len as nat),
            fam.len() == 254,
            v@ == pre + fam.take(k as int),
            forall|i: int| 0 <= i < k ==> (#[trigger] fam[i]).fits(rom_len as nat, 0),
        decreases 254 - k,
    {
        let bank: usize = if k < 0x7E { k } else { k + 2 };
        let chunk = (bank % 0x80) % n;
        proof {
            vstd::arithmetic::div_mod::lemma_mod_decreases((bank % 0x80) as nat, n as nat);
        }
        assert(chunk * 0x8000 + 0x8000 <= rom_len);
        let d = MapInfo::ROM { src: chunk * 0x8000, dst: bank * 0x10000 + 0x8000, len: 0x8000 };
        assert(d == fam[k as int]);
        v.push(d);
        assert(fam.take(k + 1) =~= fam.take(k as int).push(d));
        k = k + 1;
    }
    assert(fam.take(254) =~= fam);
}

fn push_lorom_mirror_dirs(v: &mut Vec<MapInfo>, rom_len: usize)
    ensures
        final(v)@ == old(v)@ + lorom_mirror_dirs(rom_len as nat),
        all_fit(lorom_mirror_dirs(rom_len as nat), rom_len as nat, 0),
{
    let n = rom_len / 0x8000;
    if n == 0 {
        assert(v@ =~= v@ + Seq::<MapInfo>::empty());
        return;
    }
    let ghost pre = v@;
    let ghost fam = lorom_mirror_dirs(rom_len as nat);
    let mut k: usize = 0;
    while k < 126
        invariant
            k <= 126,
            n == rom_len / 0x8000,
            n > 0,
            fam == lorom_mirror_dirs(rom_len as nat),
            fam.len() == 126,
            v@ == pre + fam.take(k as int),
            forall|i: int| 0 <= i < k ==> (#[trigger] fam[i]).fits(rom_len as nat, 0),
        decreases 126 - k,
    {
        let bank: usize = if k < 0x3E { 0x40 + k } else { 0xC0 + (k - 0x3E) };
        let chunk = (bank % 0x80) % n;
        proof {
            vstd::arithmetic::div_mod::lemma_mod_decreases((bank % 0x80) as nat, n as nat);
        }
        assert(chunk * 0x8000 + 0x8000 <= rom_len);
        let d = MapInfo::ROM { src: chunk * 0x8000, dst: bank * 0x10000, len: 0x8000 };
        assert(d == fam[k as int]);
        v.push(d);
        assert(fam.take(k + 1) =~= fam.take(k as int).push(d));
        k = k + 1;
    }
    assert(fam.take(126) =~= fam);
}

fn push_lorom_small_sram_dirs(v: &mut Vec<MapInfo>, sram_len: usize)
    requires
        0 < sram_len <= 0x8000,
    ensures
        final(v)@ == old(v)@ + lorom_small_sram_dirs(sram_len as nat),
        forall|rom_len: nat| all_fit(#[trigger] lorom_small_sram_dirs(sram_len as nat), rom_len, sram_len as nat),
{
    let n = (0x8000 + sram_len - 1) / sram_len;
    let ghost pre = v@;
    let ghost fam = lorom_small_sram_dirs(sram_len as nat);
    assert(n >= 1 && n <= 0xFFFF) by {
        vstd::arithmetic::div_mod::lemma_div_is_ordered_by_denominator(0x8000 + sram_len - 1, 1, sram_len as int);
        vstd::arithmetic::div_mod::lemma_div_by_self(sram_len as int);
        vstd::arithmetic::div_mod::lemma_div_is_ordered(sram_len as int, 0x8000 + sram_len - 1, sram_len as int);
    }
    let total = 0x1E * n;
    let mut j: usize = 0;
    while j < total
        invariant
            j <= total,
            total == 0x1E * n,
            n == steps(0x8000, sram_len as int),
            1 <= n <= 0xFFFF,
            0 < sram_len <= 0x8000,
            fam == lorom_small_sram_dirs(sram_len as nat),
            fam.len() == total,
            v@ == pre + fam.take(j as int),
            forall|i: int| 0 <= i < j ==> (#[trigger] fam[i]).fits(0, sram_len as nat),
        decreases total - j,
    {
        let k = j / n;
        let t = j % n;
        assert(k < 0x1E) by {
            vstd::arithmetic::div_mod::lemma_multiply_divide_lt(j as int, n as int, 0x1E);
        }
        proof {
            lemma_steps(0x8000, sram_len as int, t as int);
        }
        let bank: usize = if k < 0x0E { 0x70 + k } else { 0xF0 + (k - 0x0E) };
        let d = MapInfo::SRAM { src: 0, dst: bank * 0x10000 + t * sram_len, len: sram_len };
        assert(d == fam[j as int]);
        v.push(d);
        assert(fam.take(j + 1) =~= fam.take(j as int).push(d));
        j = j + 1;
    }
    assert(fam.take(total as int) =~= fam);
    assert forall|rom_len: nat| all_fit(#[trigger] lorom_small_sram_dirs(sram_len as nat), rom_len, sram_len as nat) by {
        assert forall|i: int| 0 <= i < fam.len() implies (#[trigger] fam[i]).fits(rom_len, sram_len as nat) by {
            assert(fam[i].fits(0, sram_len as nat));
        }
    }
}

fn push_lorom_large_sram_dirs(v: &mut Vec<MapInfo>, sram_len: usize)
    requires
        0x8000 < sram_len,
        (0x1E0000 as nat) % (sram_len as nat) == 0,
    ensures
        final(v)@ == old(v)@ + lorom_large_sram_dirs(sram_len as nat),
        forall|rom_len: nat| all_fit(#[trigger] lorom_large_sram_dirs(sram_len as nat), rom_len, sram_len as nat),
{
    assert(sram_len <= 0x1E0000) by {
        if sram_len > 0x1E0000 {
            vstd::arithmetic::div_mod::lemma_small_mod(0x1E0000, sram_len as nat);
        }
    }
    let n = (0x1E0000 + sram_len - 1) / sram_len;
    let ghost pre = v@;
    let ghost fam = lorom_large_sram_dirs(sram_len as nat);
    let mut j: usize = 0;
    while j < n
        invariant
            j <= n,
            n == steps(0x1E0000, sram_len as int),
            0x8000 < sram_len,
            (0x1E0000 as nat) % (sram_len as nat) == 0,
            fam == lorom_large_sram_dirs(sram_len as nat),
            fam.len() == n,
            v@ == pre + fam.take(j as int),
            forall|i: int| 0 <= i < j ==> (#[trigger] fam[i]).fits(0, sram_len as nat),
        decreases n - j,
    {
        proof {
            lemma_steps(0x1E0000, sram_len as int, j as int);
            lemma_steps_exact(0x1E0000, sram_len as int, j as int);
        }
        let p = j * sram_len;
        let dst = if p < 0xE0000 { 0x700000 + p } else { 0xF00000 + (p - 0xE0000) };
        let d = MapInfo::SRAM { src: 0, dst, len: sram_len };
        assert(d == fam[j as int]);
        v.push(d);
        assert(fam.take(j + 1) =~= fam.take(j as int).push(d));
        j = j + 1;
    }
    assert(fam.take(n as int) =~= fam);
    assert forall|rom_len: nat| all_fit(#[trigger] lorom_large_sram_dirs(sram_len as nat), rom_len, sram_len as nat) by {
        assert forall|i: int| 0 <= i < fam.len() implies (#[trigger] fam[i]).fits(rom_len, sram_len as nat) by {
            assert(fam[i].fits(0, sram_len as nat));
        }
    }
}

fn push_hirom_upper_dirs(v: &mut Vec<MapInfo>, rom_len: usize)
    requires
        rom_len % 0x10000 == 0 || rom_len >= 0x400000,
    ensures
        final(v)@ == old(v)@ + hirom_upper_dirs(rom_len as nat),
        all_fit(hirom_upper_dirs(rom_len as nat), rom_len as nat, 0),
{
    let ghost pre = v@;
    let ghost c = hirom_upper_candidates();
    let ghost p = rom_filter(rom_len as nat);
    let mut k: usize = 0;
    while k < 0x80
        invariant
            k <= 0x80,
            rom_len % 0x10000 == 0 || rom_len >= 0x400000,
            c == hirom_upper_candidates(),
            p == rom_filter(rom_len as nat),
            v@ == pre + c.take(k as int).filter(p),
            all_fit(c.take(k as int).filter(p), rom_len as nat, 0),
        decreases 0x80 - k,
    {
        let bank: usize = if k < 0x40 { k } else { k + 0x40 };
        let src = (bank % 0x40) * 0x10000 + 0x8000;
        let d = MapInfo::ROM { src, dst: bank * 0x10000 + 0x8000, len: 0x8000 };
        assert(d == c[k as int]);
        proof {
            lemma_filter_step(c, k as int, p);
        }
        if src < rom_len {
            v.push(d);
            assert(d.fits(rom_len as nat, 0));
            assert(all_fit(c.take(k + 1).filter(p), rom_len as nat, 0)) by {
                let f = c.take(k + 1).filter(p);
                assert forall|i: int| 0 <= i < f.len() implies (#[trigger] f[i]).fits(rom_len as nat, 0) by {
                    if i < f.len() - 1 {
                        assert(f[i] == c.take(k as int).filter(p)[i]);
                    }
                }
            }
        }
        k = k + 1;
    }
    assert(c.take(0x80) =~= c);
}

fn push_hirom_full_dirs(v: &mut Vec<MapInfo>, rom_len: usize)
    requires
        rom_len % 0x10000 == 0 || rom_len >= 0x400000,
    ensures
        final(v)@ == old(v)@ + hirom_full_dirs(rom_len as nat),
        all_fit(hirom_full_dirs(rom_len as nat), rom_len as nat, 0),
{
    let ghost pre = v@;
    let ghost c = hirom_full_candidates();
    let ghost p = rom_filter(rom_len as nat);
    let mut k: usize = 0;
    while k < 126
        invariant
            k <= 126,
            rom_len % 0x10000 == 0 || rom_len >= 0x400000,
            c == hirom_full_candidates(),
            p == rom_filter(rom_len as nat),
            v@ == pre + c.take(k as int).filter(p),
            all_fit(c.take(k as int).filter(p), rom_len as nat, 0),
        decreases 126 - k,
    {
        let bank: usize = if k < 0x3E { 0x40 + k } else { 0xC0 + (k - 0x3E) };
        let src = (bank % 0x40) * 0x10000;
        let d = MapInfo::ROM { src, dst: bank * 0x10000, len: 0x10000 };
        assert(d == c[k as int]);
        proof {
            lemma_filter_step(c, k as int, p);
        }
        if src < rom_len {
            v.push(d);
            assert(d.fits(rom_len as nat, 0));
            assert(all_fit(c.take(k + 1).filter(p), rom_len as nat, 0)) by {
                let f = c.take(k + 1).filter(p);
                assert forall|i: int| 0 <= i < f.len() implies (#[trigger] f[i]).fits(rom_len as nat, 0) by {
                    if i < f.len() - 1 {
                        assert(f[i] == c.take(k as int).filter(p)[i]);
                    }
                }
            }
        }
        k = k + 1;
    }
    assert(c.take(126) =~= c);
}

fn push_hirom_sram_dirs(v: &mut Vec<MapInfo>, sram_len: usize)
    requires
        sram_len <= 0x2000,
    ensures
        final(v)@ == old(v)@ + hirom_sram_dirs(sram_len as nat),
        forall|rom_len: nat| all_fit(#[trigger] hirom_sram_dirs(sram_len as nat), rom_len, sram_len as nat),
{
    if sram_len == 0 {
        assert(v@ =~= v@ + Seq::<MapInfo>::empty());
        return;
    }
    let n = (0x2000 + sram_len - 1) / sram_len;
    let ghost pre = v@;
    let ghost fam = hirom_sram_dirs(sram_len as nat);
    assert(n >= 1 && n <= 0x3FFF) by {
        vstd::arithmetic::div_mod::lemma_div_is_ordered_by_denominator(0x2000 + sram_len - 1, 1, sram_len as int);
        vstd::arithmetic::div_mod::lemma_div_by_self(sram_len as int);
        vstd::arithmetic::div_mod::lemma_div_is_ordered(sram_len as int, 0x2000 + sram_len - 1, sram_len as int);
    }
    let total = 0x40 * n;
    let mut j: usize = 0;
    while j < total
        invariant
            j <= total,
            total == 0x40 * n,
            n == steps(0x2000, sram_len as int),
            1 <= n <= 0x3FFF,
            0 < sram_len <= 0x2000,
            fam == hirom_sram_dirs(sram_len as nat),
            fam.len() == total,
            v@ == pre + fam.take(j as int),
            forall|i: int| 0 <= i < j ==> (#[trigger] fam[i]).fits(0, sram_len as nat),
        decreases total - j,
    {
        let k = j / n;
        let t = j % n;
        assert(k < 0x40) by {
            vstd::arithmetic::div_mod::lemma_multiply_divide_lt(j as int, n as int, 0x40);
        }
        proof {
            lemma_steps(0x2000, sram_len as int, t as int);
        }
        let bank: usize = if k < 0x20 { 0x20 + k } else { 0xA0 + (k - 0x20) };
        let d = MapInfo::SRAM { src: 0, dst: bank * 0x10000 + 0x6000 + t * sram_len, len: sram_len };
        assert(d == fam[j as int]);
        v.push(d);
        assert(fam.take(j + 1) =~= fam.take(j as int).push(d));
        j = j + 1;
    }
    assert(fam.take(total as int) =~= fam);
    assert forall|rom_len: nat| all_fit(#[trigger] hirom_sram_dirs(sram_len as nat), rom_len, sram_len as nat) by {
        assert forall|i: int| 0 <= i < fam.len() implies (#[trigger] fam[i]).fits(rom_len, sram_len as nat) by {
            assert(fam[i].fits(0, sram_len as nat));
        }
    }
}

proof fn lemma_fit_any_sram(ds: Seq<MapInfo>, rom_len: nat, sram_len: nat)
    requires
        all_fit(ds, rom_len, 0),
    ensures
        all_fit(ds, rom_len, sram_len),
{
    assert forall|k: int| 0 <= k < ds.len() implies (#[trigger] ds[k]).fits(rom_len, sram_len) by {
        assert(ds[k].fits(rom_len, 0));
    }
}

/// The directives that lay a cartridge out in the flat address space, in the order
/// they are applied.
pub fn map_directives(mode: ROMType, rom_len: usize, sram_len: usize) -> (r: Vec<MapInfo>)
    requires
        layout_supported(mode, rom_len as nat, sram_len as nat),
    ensures
        r@ == directives(mode, rom_len as nat, sram_len as nat),
        all_fit(r@, rom_len as nat, sram_len as nat),
{
    let ghost rl = rom_len as nat;
    let ghost sl = sram_len as nat;
    let mut v: Vec<MapInfo> = Vec::new();
    push_wram_dirs(&mut v);
    proof {
        lemma_wram_fit(rl, sl);
        assert(v@ =~= wram_dirs());
    }
    match mode {
        ROMType::LoROM => {
            push_lorom_rom_dirs(&mut v, rom_len);
            proof {
                lemma_fit_any_sram(lorom_rom_dirs(rl), rl, sl);
            }
            if sram_len == 0 {
                push_lorom_mirror_dirs(&mut v, rom_len);
                proof {
                    lemma_fit_any_sram(lorom_mirror_dirs(rl), rl, sl);
                    lemma_all_fit_concat(lorom_rom_dirs(rl), lorom_mirror_dirs(rl), rl, sl);
                }
            } else if sram_len <= 0x8000 {
                push_lorom_small_sram_dirs(&mut v, sram_len);
                proof {
                    assert(all_fit(lorom_small_sram_dirs(sl), rl, sl));
                    lemma_all_fit_concat(lorom_rom_dirs(rl), lorom_small_sram_dirs(sl), rl, sl);
                }
            } else {
                push_lorom_large_sram_dirs(&mut v, sram_len);
                proof {
                    assert(all_fit(lorom_large_sram_dirs(sl), rl, sl));
                    lemma_all_fit_concat(lorom_rom_dirs(rl), lorom_large_sram_dirs(sl), rl, sl);
                }
            }
            proof {
                lemma_all_fit_concat(wram_dirs(), lorom_dirs(rl, sl), rl, sl);
                assert(v@ =~= directives(mode, rl, sl));
            }
        },
        ROMType::HiROM => {
            push_hirom_upper_dirs(&mut v, rom_len);
            push_hirom_full_dirs(&mut v, rom_len);
            push_hirom_sram_dirs(&mut v, sram_len);
            proof {
                lemma_fit_any_sram(hirom_upper_dirs(rl), rl, sl);
                lemma_fit_any_sram(hirom_full_dirs(rl), rl, sl);
                assert(all_fit(hirom_sram_dirs(sl), rl, sl));
                lemma_all_fit_concat(hirom_upper_dirs(rl), hirom_full_dirs(rl), rl, sl);
                lemma_all_fit_concat(hirom_upper_dirs(rl) + hirom_full_dirs(rl), hirom_sram_dirs(sl), rl, sl);
                lemma_all_fit_concat(wram_dirs(), hirom_dirs(rl, sl), rl, sl);
                assert(v@ =~= directives(mode, rl, sl));
            }
        },
    }
    v
}

} // verus!
