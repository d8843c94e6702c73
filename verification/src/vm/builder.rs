//! Decisions taken while a VM is built: where each image goes in guest RAM,
//! which KVM memory slots back the RAM around the in-kernel APIC pages, and
//! what the vCPUs report through CPUID and their local APIC.
use vstd::prelude::*;
use vstd::bytes::{spec_u32_from_le_bytes, spec_u32_to_le_bytes, u32_from_le_bytes, u32_to_le_bytes};
use crate::bytes::put_bytes;
use crate::machine_config::machine_config::MemoryRegionConfig;
use crate::memory_region::splice;
use crate::vcpu::CpuidEntry;

verus! {

/// The in-kernel IOAPIC page.
pub const IOAPIC_START: u64 = 0x0000_0000_FEC0_0000;

pub const IOAPIC_END: u64 = 0x0000_0000_FEC0_1000;

/// The in-kernel local APIC page.
pub const LAPIC_START: u64 = 0x0000_0000_FEE0_0000;

pub const LAPIC_END: u64 = 0x0000_0000_FEE0_1000;

/// `seg` with the addresses of `hole` taken out: itself when they do not
/// meet, otherwise the parts below and above the hole that are not empty.
pub open spec fn split_segment(seg: (u64, u64), hole: (u64, u64)) -> Seq<(u64, u64)> {
    if hole.0 >= seg.1 || hole.1 <= seg.0 {
        seq![seg]
    } else {
        (if seg.0 < hole.0 {
            seq![(seg.0, hole.0)]
        } else {
            Seq::empty()
        }) + (if hole.1 < seg.1 {
            seq![(hole.1, seg.1)]
        } else {
            Seq::empty()
        })
    }
}

/// Every segment with the hole taken out, in order.
pub open spec fn carve_hole(segs: Seq<(u64, u64)>, hole: (u64, u64)) -> Seq<(u64, u64)>
    decreases segs.len(),
{
    if segs.len() == 0 {
        Seq::empty()
    } else {
        carve_hole(segs.drop_last(), hole) + split_segment(segs.last(), hole)
    }
}

/// The guest ranges `[start, end)` registered as KVM slots for RAM at
/// `mem_offset` of `mem_size` bytes: the RAM with the IOAPIC and LAPIC pages
/// carved out.
pub open spec fn ram_slots(mem_offset: u64, mem_size: usize) -> Seq<(u64, u64)> {
    carve_hole(
        carve_hole(seq![(mem_offset, (mem_offset + mem_size) as u64)], (IOAPIC_START, IOAPIC_END)),
        (LAPIC_START, LAPIC_END),
    )
}

/// Some segment of `segs` holds address `a`.
pub open spec fn segs_cover(segs: Seq<(u64, u64)>, a: int) -> bool {
    exists|i: int| 0 <= i < segs.len() && (#[trigger] segs[i]).0 <= a < segs[i].1
}

/// The segments lie in ascending order without overlapping.
pub open spec fn segs_ordered(segs: Seq<(u64, u64)>) -> bool {
    forall|i: int, j: int| 0 <= i < j < segs.len() ==> (#[trigger] segs[i]).1 <= (#[trigger] segs[j]).0
}

/// Every segment is a proper range.
pub open spec fn segs_nonempty(segs: Seq<(u64, u64)>) -> bool {
    forall|i: int| 0 <= i < segs.len() ==> (#[trigger] segs[i]).0 < segs[i].1
}

proof fn lemma_split_segment(seg: (u64, u64), hole: (u64, u64), a: int)
    ensures
        segs_cover(split_segment(seg, hole), a) <==> (seg.0 <= a < seg.1 && !(hole.0 <= a < hole.1)),
{
    let s = split_segment(seg, hole);
    if seg.0 <= a < seg.1 && !(hole.0 <= a < hole.1) {
        if hole.0 >= seg.1 || hole.1 <= seg.0 {
            assert(s[0] == seg);
        } else if a < hole.0 {
            assert(s[0] == (seg.0, hole.0));
        } else {
            let k = if seg.0 < hole.0 { 1int } else { 0int };
            assert(s[k] == (hole.1, seg.1));
        }
    }
}

/// Carving a hole out of segments leaves exactly the addresses they held that
/// are not in the hole.
pub proof fn lemma_carve_hole_cover(segs: Seq<(u64, u64)>, hole: (u64, u64), a: int)
    ensures
        segs_cover(carve_hole(segs, hole), a) <==> (segs_cover(segs, a) && !(hole.0 <= a < hole.1)),
    decreases segs.len(),
{
    if segs.len() > 0 {
        let init = segs.drop_last();
        let c = carve_hole(init, hole);
        let sp = split_segment(segs.last(), hole);
        lemma_carve_hole_cover(init, hole, a);
        lemma_split_segment(segs.last(), hole, a);
        let whole = c + sp;
        if segs_cover(whole, a) {
            let i = choose|i: int| 0 <= i < whole.len() && (#[trigger] whole[i]).0 <= a < whole[i].1;
            if i < c.len() {
                assert(whole[i] == c[i]);
            } else {
                assert(whole[i] == sp[i - c.len()]);
            }
        }
        if segs_cover(c, a) {
            let i = choose|i: int| 0 <= i < c.len() && (#[trigger] c[i]).0 <= a < c[i].1;
            assert(whole[i] == c[i]);
        }
        if segs_cover(sp, a) {
            let i = choose|i: int| 0 <= i < sp.len() && (#[trigger] sp[i]).0 <= a < sp[i].1;
            assert(whole[c.len() + i] == sp[i]);
        }
        if segs_cover(segs, a) {
            let i = choose|i: int| 0 <= i < segs.len() && (#[trigger] segs[i]).0 <= a < segs[i].1;
            if i < segs.len() - 1 {
                assert(init[i] == segs[i]);
            }
        }
        if segs_cover(init, a) {
            let i = choose|i: int| 0 <= i < init.len() && (#[trigger] init[i]).0 <= a < init[i].1;
            assert(segs[i] == init[i]);
        }
    } else {
        assert(carve_hole(segs, hole) =~= Seq::<(u64, u64)>::empty());
    }
}

/// Every piece lies within some segment of `segs`.
pub open spec fn pieces_within(pieces: Seq<(u64, u64)>, segs: Seq<(u64, u64)>) -> bool {
    forall|i: int|
        0 <= i < pieces.len() ==> exists|k: int|
            0 <= k < segs.len() && segs[k].0 <= (#[trigger] pieces[i]).0 && pieces[i].1 <= segs[k].1
}

proof fn lemma_split_shape(seg: (u64, u64), hole: (u64, u64))
    requires
        hole.0 <= hole.1,
    ensures
        forall|i: int|
            0 <= i < split_segment(seg, hole).len() ==> seg.0 <= (#[trigger] split_segment(seg, hole)[i]).0
                && split_segment(seg, hole)[i].1 <= seg.1,
        segs_ordered(split_segment(seg, hole)),
        seg.0 < seg.1 ==> segs_nonempty(split_segment(seg, hole)),
{
    let sp = split_segment(seg, hole);
    if !(hole.0 >= seg.1 || hole.1 <= seg.0) && seg.0 < hole.0 && hole.1 < seg.1 {
        assert(sp[0] == (seg.0, hole.0) && sp[1] == (hole.1, seg.1));
    }
}

/// Carving keeps segments in order and proper, and each piece within the
/// segment it came from.
pub proof fn lemma_carve_hole_shape(segs: Seq<(u64, u64)>, hole: (u64, u64))
    requires
        hole.0 <= hole.1,
    ensures
        pieces_within(carve_hole(segs, hole), segs),
        segs_ordered(segs) ==> segs_ordered(carve_hole(segs, hole)),
        segs_nonempty(segs) ==> segs_nonempty(carve_hole(segs, hole)),
    decreases segs.len(),
{
    if segs.len() > 0 {
        let init = segs.drop_last();
        let c = carve_hole(init, hole);
        let sp = split_segment(segs.last(), hole);
        let whole = c + sp;
        lemma_carve_hole_shape(init, hole);
        lemma_split_shape(segs.last(), hole);
        assert forall|i: int| 0 <= i < whole.len() implies exists|k: int|
            0 <= k < segs.len() && segs[k].0 <= (#[trigger] whole[i]).0 && whole[i].1 <= segs[k].1 by {
            if i < c.len() {
                assert(whole[i] == c[i]);
                let k = choose|k: int| 0 <= k < init.len() && init[k].0 <= c[i].0 && c[i].1 <= init[k].1;
                assert(segs[k] == init[k]);
            } else {
                assert(whole[i] == sp[i - c.len()]);
                assert(segs[segs.len() - 1] == segs.last());
            }
        }
        if segs_ordered(segs) {
            assert forall|i: int, j: int| 0 <= i < j < whole.len() implies (#[trigger] whole[i]).1 <= (
            #[trigger] whole[j]).0 by {
                if j < c.len() {
                    assert(whole[i] == c[i] && whole[j] == c[j]);
                    assert(segs_ordered(init)) by {
                        assert forall|a: int, b: int| 0 <= a < b < init.len() implies (#[trigger] init[a]).1
                            <= (#[trigger] init[b]).0 by {
                            assert(init[a] == segs[a] && init[b] == segs[b]);
                        }
                    }
                } else if i >= c.len() {
                    assert(whole[i] == sp[i - c.len()] && whole[j] == sp[j - c.len()]);
                } else {
                    assert(whole[i] == c[i] && whole[j] == sp[j - c.len()]);
                    let k = choose|k: int| 0 <= k < init.len() && init[k].0 <= c[i].0 && c[i].1 <= init[k].1;
                    assert(init[k] == segs[k]);
                    assert(segs[k].1 <= segs[segs.len() - 1].0);
                }
            }
        }
        if segs_nonempty(segs) {
            assert(segs_nonempty(init)) by {
                assert forall|a: int| 0 <= a < init.len() implies (#[trigger] init[a]).0 < init[a].1 by {
                    assert(init[a] == segs[a]);
                }
            }
            assert(segs[segs.len() - 1] == segs.last());
            assert forall|i: int| 0 <= i < whole.len() implies (#[trigger] whole[i]).0 < whole[i].1 by {
                if i < c.len() {
                    assert(whole[i] == c[i]);
                } else {
                    assert(whole[i] == sp[i - c.len()]);
                }
            }
        }
    } else {
        assert(carve_hole(segs, hole) =~= Seq::<(u64, u64)>::empty());
    }
}

/// The KVM slots of a RAM region hold exactly the RAM addresses outside the
/// IOAPIC and LAPIC pages, in ascending order, without overlapping, and no
/// slot is empty when the RAM is not.
pub proof fn lemma_ram_slots(mem_offset: u64, mem_size: usize, a: int)
    requires
        mem_offset + mem_size <= u64::MAX,
    ensures
        segs_cover(ram_slots(mem_offset, mem_size), a) <==> {
            &&& mem_offset <= a < mem_offset + mem_size
            &&& !(IOAPIC_START <= a < IOAPIC_END)
            &&& !(LAPIC_START <= a < LAPIC_END)
        },
        segs_ordered(ram_slots(mem_offset, mem_size)),
        mem_size > 0 ==> segs_nonempty(ram_slots(mem_offset, mem_size)),
{
    let whole = seq![(mem_offset, (mem_offset + mem_size) as u64)];
    let once = carve_hole(whole, (IOAPIC_START, IOAPIC_END));
    lemma_carve_hole_cover(whole, (IOAPIC_START, IOAPIC_END), a);
    lemma_carve_hole_cover(once, (LAPIC_START, LAPIC_END), a);
    if mem_offset <= a < mem_offset + mem_size {
        assert(whole[0].0 <= a < whole[0].1);
    }
    lemma_carve_hole_shape(whole, (IOAPIC_START, IOAPIC_END));
    lemma_carve_hole_shape(once, (LAPIC_START, LAPIC_END));
}

/// Every segment with the hole taken out, computed as `new_mem` registers them.
fn carve(segments: Vec<(u64, u64)>, hole: (u64, u64)) -> (r: Vec<(u64, u64)>)
    ensures
        r@ == carve_hole(segments@, hole),
{
    let (hole_start, hole_end) = hole;
    assert(hole == (hole_start, hole_end));
    let mut next: Vec<(u64, u64)> = Vec::new();
    let mut i: usize = 0;
    while i < segments.len()
        invariant
            i <= segments@.len(),
            next@ == carve_hole(segments@.subrange(0, i as int), hole),
            hole == (hole_start, hole_end),
        decreases segments@.len() - i,
    {
        let (seg_start, seg_end) = segments[i];
        assert(segments@[i as int] == (seg_start, seg_end));
        let ghost before = next@;
        if hole_start >= seg_end || hole_end <= seg_start {
            next.push((seg_start, seg_end));
        } else {
            if seg_start < hole_start {
                next.push((seg_start, hole_start));
            }
            let ghost mid = next@;
            assert(mid =~= before + (if seg_start < hole_start {
                seq![(seg_start, hole_start)]
            } else {
                Seq::<(u64, u64)>::empty()
            }));
            if hole_end < seg_end {
                next.push((hole_end, seg_end));
            }
            assert(next@ =~= mid + (if hole_end < seg_end {
                seq![(hole_end, seg_end)]
            } else {
                Seq::<(u64, u64)>::empty()
            }));
        }
        assert(next@ =~= before + split_segment((seg_start, seg_end), (hole_start, hole_end)));
        i = i + 1;
        assert(segments@.subrange(0, i as int).drop_last() =~= segments@.subrange(0, i - 1));
        assert(carve_hole(segments@.subrange(0, i as int), hole) == carve_hole(
            segments@.subrange(0, i - 1),
            hole,
        ) + split_segment(segments@[i - 1], hole));
    }
    assert(segments@.subrange(0, segments@.len() as int) =~= segments@);
    next
}

/// The KVM memory slots that back RAM at `mem_offset` of `mem_size` bytes:
/// the RAM with the in-kernel IOAPIC and LAPIC pages carved out, as
/// `[start, end)` guest ranges in order. Slot `k` backs the `k`-th range.
pub fn kvm_memory_slots(mem_offset: u64, mem_size: usize) -> (r: Vec<(u64, u64)>)
    requires
        mem_offset + mem_size <= u64::MAX,
    ensures
        r@ == ram_slots(mem_offset, mem_size),
{
    let start = mem_offset;
    let end = mem_offset + mem_size as u64;
    let mut segments: Vec<(u64, u64)> = Vec::new();
    segments.push((start, end));
    assert(segments@ =~= seq![(start, end)]);
    let segments = carve(segments, (IOAPIC_START, IOAPIC_END));
    carve(segments, (LAPIC_START, LAPIC_END))
}

/// Every segment ends at or after its start.
pub open spec fn segs_forward(segs: Seq<(u64, u64)>) -> bool {
    forall|i: int| 0 <= i < segs.len() ==> (#[trigger] segs[i]).0 <= segs[i].1
}

proof fn lemma_carve_keeps_forward(segs: Seq<(u64, u64)>, hole: (u64, u64))
    requires
        segs_forward(segs),
    ensures
        segs_forward(carve_hole(segs, hole)),
    decreases segs.len(),
{
    if segs.len() > 0 {
        let init = segs.drop_last();
        lemma_carve_keeps_forward(init, hole);
        let c = carve_hole(init, hole);
        let sp = split_segment(segs.last(), hole);
        assert(segs_forward(sp)) by {
            let seg = segs.last();
            assert(seg.0 <= seg.1);
            if !(hole.0 >= seg.1 || hole.1 <= seg.0) && seg.0 < hole.0 && hole.1 < seg.1 {
                assert(sp[0] == (seg.0, hole.0) && sp[1] == (hole.1, seg.1));
            }
        }
        assert forall|i: int| 0 <= i < (c + sp).len() implies (#[trigger] (c + sp)[i]).0 <= (c + sp)[i].1 by {
            if i < c.len() {
                assert((c + sp)[i] == c[i]);
            } else {
                assert((c + sp)[i] == sp[i - c.len()]);
            }
        }
    }
}

/// The slots of RAM at `mem_offset` of `mem_size` bytes lie within the RAM and
/// each ends at or after its start.
pub proof fn lemma_ram_slots_within(mem_offset: u64, mem_size: usize)
    requires
        mem_offset + mem_size <= u64::MAX,
    ensures
        forall|k: int|
            0 <= k < ram_slots(mem_offset, mem_size).len() ==> mem_offset <= (#[trigger] ram_slots(
                mem_offset,
                mem_size,
            )[k]).0 <= ram_slots(mem_offset, mem_size)[k].1 <= mem_offset + mem_size,
        ram_slots(mem_offset, mem_size).len() <= 4,
{
    let whole = seq![(mem_offset, (mem_offset + mem_size) as u64)];
    let once = carve_hole(whole, (IOAPIC_START, IOAPIC_END));
    let twice = carve_hole(once, (LAPIC_START, LAPIC_END));
    lemma_carve_hole_shape(whole, (IOAPIC_START, IOAPIC_END));
    lemma_carve_hole_shape(once, (LAPIC_START, LAPIC_END));
    lemma_carve_keeps_forward(whole, (IOAPIC_START, IOAPIC_END));
    lemma_carve_keeps_forward(once, (LAPIC_START, LAPIC_END));
    assert(whole.drop_last() =~= Seq::<(u64, u64)>::empty());
    lemma_carve_len(whole, (IOAPIC_START, IOAPIC_END));
    assert forall|k: int| 0 <= k < twice.len() implies mem_offset <= (#[trigger] twice[k]).0
        && twice[k].1 <= mem_offset + mem_size by {
        let j = choose|j: int| 0 <= j < once.len() && once[j].0 <= twice[k].0 && twice[k].1 <= once[j].1;
        assert(whole[0].0 <= once[j].0 && once[j].1 <= whole[0].1);
    }
    lemma_carve_len(once, (LAPIC_START, LAPIC_END));
}

proof fn lemma_carve_len(segs: Seq<(u64, u64)>, hole: (u64, u64))
    ensures
        carve_hole(segs, hole).len() <= 2 * segs.len(),
    decreases segs.len(),
{
    if segs.len() > 0 {
        lemma_carve_len(segs.drop_last(), hole);
    }
}

/// The arguments of the KVM memory-region calls for RAM at `mem_offset` of
/// `mem_size` bytes: for the `k`-th slot, the slot number `k`, its guest
/// address, its size, and its offset from the start of the RAM's host mapping.
pub fn kvm_slot_regions(mem_offset: u64, mem_size: usize) -> (r: Vec<(u32, u64, u64, u64)>)
    requires
        mem_offset + mem_size <= u64::MAX,
    ensures
        r@.len() == ram_slots(mem_offset, mem_size).len(),
        forall|k: int|
            0 <= k < r@.len() ==> {
                let s = ram_slots(mem_offset, mem_size)[k];
                #[trigger] r@[k] == (k as u32, s.0, (s.1 - s.0) as u64, (s.0 - mem_offset) as u64)
            },
{
    let slots = kvm_memory_slots(mem_offset, mem_size);
    proof {
        lemma_ram_slots_within(mem_offset, mem_size);
    }
    let mut r: Vec<(u32, u64, u64, u64)> = Vec::new();
    let mut k: usize = 0;
    while k < slots.len()
        invariant
            k <= slots@.len(),
            slots@ == ram_slots(mem_offset, mem_size),
            slots@.len() <= 4,
            r@.len() == k,
            forall|j: int|
                0 <= j < slots@.len() ==> mem_offset <= (#[trigger] slots@[j]).0 <= slots@[j].1,
            forall|j: int|
                0 <= j < k ==> #[trigger] r@[j] == (j as u32, slots@[j].0, (slots@[j].1 - slots@[j].0) as u64, (
                    slots@[j].0 - mem_offset) as u64),
        decreases slots@.len() - k,
    {
        let (start, end) = slots[k];
        r.push((k as u32, start, end - start, start - mem_offset));
        k = k + 1;
    }
    r
}

/// An image that starts inside a RAM region but runs past its end.
#[derive(Clone, Copy, Debug, PartialEq, Eq, Structural)]
pub struct PlacementError {
    /// Bytes of the image.
    pub needed: usize,
    /// Bytes from where the image starts to the end of the region.
    pub available: usize,
    /// Where the image starts, relative to the region.
    pub code_offset: usize,
}

/// Where an image of `len` bytes at guest address `offset` goes in RAM region
/// `mem`: `None` when it does not start inside the region; otherwise its
/// offset within the region, or the error when it does not fit.
pub open spec fn spec_binary_placement(mem: MemoryRegionConfig, offset: u64, len: usize) -> Option<
    Result<usize, PlacementError>,
> {
    if mem.mem_offset <= offset && offset < mem.mem_offset + mem.mem_size {
        let code_offset = (offset - mem.mem_offset) as usize;
        let available = (mem.mem_size - code_offset) as usize;
        Some(
            if len <= available {
                Ok(code_offset)
            } else {
                Err(PlacementError { needed: len, available, code_offset })
            },
        )
    } else {
        None
    }
}

/// Decides where an image of `len` bytes meant for guest address `offset` is
/// copied within RAM region `mem`.
pub fn binary_placement(mem: &MemoryRegionConfig, offset: u64, len: usize) -> (r: Option<
    Result<usize, PlacementError>,
>)
    requires
        mem.mem_offset + mem.mem_size <= u64::MAX,
    ensures
        r == spec_binary_placement(*mem, offset, len),
{
    if mem.mem_offset <= offset && mem.mem_offset + (mem.mem_size as u64) > offset {
        let code_offset = (offset - mem.mem_offset) as usize;
        let remaining = mem.mem_size - code_offset;
        if len <= remaining {
            Some(Ok(code_offset))
        } else {
            Some(Err(PlacementError { needed: len, available: remaining, code_offset }))
        }
    } else {
        None
    }
}

/// Long mode (bit 29) and NX (bit 20) in CPUID 0x80000001 EDX.
pub const CPUID_EXT_LM_NX: u32 = (1u32 << 29) | (1u32 << 20);

/// A CPUID leaf as vCPU `vcpu_id` reports it: the extended range reaches at
/// least 0x80000001, long mode and NX are advertised, and leaf 1 carries the
/// vCPU's APIC ID in EBX bits 24..31.
pub open spec fn spec_adjust_cpuid_entry(e: CpuidEntry, vcpu_id: u8) -> CpuidEntry {
    if e.function == 0x80000000 {
        CpuidEntry { eax: if e.eax < 0x80000001 { 0x80000001 } else { e.eax }, ..e }
    } else if e.function == 0x80000001 {
        CpuidEntry { edx: e.edx | CPUID_EXT_LM_NX, ..e }
    } else if e.function == 1 {
        CpuidEntry { ebx: (e.ebx & 0x00FF_FFFF) | ((vcpu_id as u32) << 24u32), ..e }
    } else {
        e
    }
}

pub fn adjust_cpuid_entry(entry: &mut CpuidEntry, vcpu_id: u8)
    ensures
        *final(entry) == spec_adjust_cpuid_entry(*old(entry), vcpu_id),
{
    if entry.function == 0x80000000 {
        if entry.eax < 0x80000001 {
            entry.eax = 0x80000001;
        }
    } else if entry.function == 0x80000001 {
        entry.edx = entry.edx | CPUID_EXT_LM_NX;  // Long mode, NX
    } else if entry.function == 1 {
        entry.ebx = (entry.ebx & 0x00FF_FFFF) | ((vcpu_id as u32) << 24);  // APIC ID
    }
}

/// Adjusts every leaf of the host's supported CPUID for vCPU `vcpu_id`.
pub fn adjust_cpuid(entries: &mut Vec<CpuidEntry>, vcpu_id: u8)
    ensures
        final(entries)@ == old(entries)@.map_values(|e: CpuidEntry| spec_adjust_cpuid_entry(e, vcpu_id)),
{
    let mut i: usize = 0;
    while i < entries.len()
        invariant
            i <= entries@.len(),
            entries@.len() == old(entries)@.len(),
            forall|k: int| 0 <= k < i ==> entries@[k] == spec_adjust_cpuid_entry(old(entries)@[k], vcpu_id),
            forall|k: int| i <= k < entries@.len() ==> entries@[k] == old(entries)@[k],
        decreases entries@.len() - i,
    {
        let mut e = entries[i];
        adjust_cpuid_entry(&mut e, vcpu_id);
        entries.set(i, e);
        i = i + 1;
    }
    assert(entries@ =~= old(entries)@.map_values(|e: CpuidEntry| spec_adjust_cpuid_entry(e, vcpu_id)));
}

/// Leaf 1 reports the vCPU's APIC ID in EBX bits 24..31 and keeps bits 0..23.
pub proof fn lemma_cpuid_apic_id(e: CpuidEntry, vcpu_id: u8)
    requires
        e.function == 1,
    ensures
        spec_adjust_cpuid_entry(e, vcpu_id).ebx >> 24u32 == vcpu_id as u32,
        spec_adjust_cpuid_entry(e, vcpu_id).ebx & 0x00FF_FFFF == e.ebx & 0x00FF_FFFF,
{
    let b = e.ebx;
    let v = vcpu_id as u32;
    assert(((b & 0x00FF_FFFF) | (v << 24u32)) >> 24u32 == v && ((b & 0x00FF_FFFF) | (v << 24u32))
        & 0x00FF_FFFF == b & 0x00FF_FFFF) by (bit_vector)
        requires
            v < 256,
    ;
}

/// What each vCPU reports of the host's CPUID: the extended range reaches at
/// least 0x80000001 and is never lowered; leaf 0x80000001 keeps every host EDX
/// bit and adds long mode (bit 29) and NX (bit 20), changing nothing else;
/// leaf 1 changes only its APIC ID byte; every other leaf, and every register
/// not named, stays as the host reports it.
pub proof fn lemma_cpuid_adjustment(e: CpuidEntry, vcpu_id: u8)
    ensures
        ({
            let r = spec_adjust_cpuid_entry(e, vcpu_id);
            &&& r.function == e.function && r.index == e.index && r.flags == e.flags
            &&& r.ecx == e.ecx
            &&& e.function == 0x80000000 ==> {
                &&& r.eax >= 0x80000001
                &&& r.eax >= e.eax
                &&& (e.eax >= 0x80000001 ==> r.eax == e.eax)
                &&& r.ebx == e.ebx && r.edx == e.edx
            }
            &&& e.function == 0x80000001 ==> {
                &&& r.edx & e.edx == e.edx
                &&& r.edx & (1u32 << 29u32) != 0
                &&& r.edx & (1u32 << 20u32) != 0
                &&& r.edx & !((1u32 << 29u32) | (1u32 << 20u32)) == e.edx & !((1u32 << 29u32) | (1u32 << 20u32))
                &&& r.eax == e.eax && r.ebx == e.ebx
            }
            &&& e.function == 1 ==> r.eax == e.eax && r.edx == e.edx && r.ebx & 0x00FF_FFFF == e.ebx & 0x00FF_FFFF
            &&& (e.function != 0x80000000 && e.function != 0x80000001 && e.function != 1) ==> r == e
        }),
{
    let x = e.edx;
    assert((x | ((1u32 << 29u32) | (1u32 << 20u32))) & x == x && (x | ((1u32 << 29u32) | (1u32 << 20u32)))
        & (1u32 << 29u32) != 0 && (x | ((1u32 << 29u32) | (1u32 << 20u32))) & (1u32 << 20u32) != 0 && (x | (
    (1u32 << 29u32) | (1u32 << 20u32))) & !((1u32 << 29u32) | (1u32 << 20u32)) == x & !((1u32 << 29u32) | (
    1u32 << 20u32))) by (bit_vector);
    if e.function == 1 {
        lemma_cpuid_apic_id(e, vcpu_id);
    }
}

/// Offset of the LVT LINT0 register in the local APIC register page.
pub const APIC_LVT0: usize = 0x350;

/// The mask bit of an LVT register.
pub const LVT_MASK: u32 = 1u32 << 16;

/// The local APIC registers with LVT LINT0 unmasked: the mask bit of the
/// little-endian register at `APIC_LVT0` cleared, every other bit kept.
pub open spec fn spec_unmask_lint0(regs: Seq<u8>) -> Seq<u8> {
    let lvt0 = spec_u32_from_le_bytes(regs.subrange(APIC_LVT0 as int, APIC_LVT0 + 4));
    splice(regs, APIC_LVT0 as int, spec_u32_to_le_bytes(lvt0 & !LVT_MASK))
}

/// Unmasks LVT LINT0 so the in-kernel PIC's interrupts reach the vCPU.
pub fn unmask_lint0(regs: &mut Vec<u8>)
    requires
        old(regs)@.len() >= APIC_LVT0 + 4,
    ensures
        final(regs)@ == spec_unmask_lint0(old(regs)@),
{
    proof {
        vstd::bytes::lemma_auto_spec_u32_to_from_le_bytes();
    }
    let lvt0 = u32_from_le_bytes(&regs.as_slice()[APIC_LVT0..APIC_LVT0 + 4]);
    let updated = lvt0 & !LVT_MASK;  // clear the mask bit
    put_bytes(regs, APIC_LVT0, u32_to_le_bytes(updated).as_slice());
}

/// Unmasking LINT0 changes only the four bytes of the LVT LINT0 register at
/// 0x350: its mask bit (16) is cleared and its other bits are kept.
pub proof fn lemma_unmask_lint0(regs: Seq<u8>, k: int)
    requires
        regs.len() >= 0x354,
        0 <= k < regs.len(),
    ensures
        spec_unmask_lint0(regs).len() == regs.len(),
        !(0x350 <= k < 0x354) ==> spec_unmask_lint0(regs)[k] == regs[k],
        vstd::bytes::spec_u32_from_le_bytes(spec_unmask_lint0(regs).subrange(0x350, 0x354)) & (1u32 << 16u32)
            == 0,
        vstd::bytes::spec_u32_from_le_bytes(spec_unmask_lint0(regs).subrange(0x350, 0x354)) | (1u32 << 16u32)
            == vstd::bytes::spec_u32_from_le_bytes(regs.subrange(0x350, 0x354)) | (1u32 << 16u32),
{
    vstd::bytes::lemma_auto_spec_u32_to_from_le_bytes();
    let old = spec_u32_from_le_bytes(regs.subrange(0x350, 0x354));
    let new = old & !LVT_MASK;
    let r = spec_unmask_lint0(regs);
    assert(r.subrange(0x350, 0x354) =~= spec_u32_to_le_bytes(new));
    assert(new & (1u32 << 16u32) == 0 && new | (1u32 << 16u32) == old | (1u32 << 16u32)) by (bit_vector)
        requires
            new == old & !(1u32 << 16u32),
    ;
}

} // verus!
