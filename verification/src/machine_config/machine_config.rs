//! The description of a machine: its RAM, the images loaded into it, its
//! devices and interrupt routing, and the firmware tables derived from them.
use vstd::prelude::*;
use vstd::bytes::{spec_u32_to_le_bytes, spec_u64_to_le_bytes};
use crate::device_maps::io::{IODevice, IODeviceRegion};
use crate::device_maps::mmio::{MMIODevice, MMIODeviceRegion};
use crate::irq::map::IrqMap;
use crate::machine_config::acpi::fadt::{build_fadt, fadt_image, FADT_ADDR};
use crate::machine_config::acpi::madt::{build_madt, madt_image, MADT_ADDR};
use crate::machine_config::acpi::rsdp::{build_rsdp, rsdp_image, RSDP_ADDR};
use crate::machine_config::acpi::xsdt::{build_xsdt, xsdt_image, XSDT_ADDR};
use crate::machine_config::binary::Binary;
use crate::machine_config::mem_map::{mem_map_entry_bytes, mem_map_header_bytes, mem_type_code, MemMap, MemMapHeader, MemType};

verus! {

/// `mem_size` bytes of guest RAM starting at guest physical address `mem_offset`.
#[derive(Clone, Copy, Debug)]
pub struct MemoryRegionConfig {
    pub mem_size: usize,
    pub mem_offset: u64,
}

pub struct MachineConfig<I: IODevice, M: MMIODevice> {
    pub memory_regions: Vec<MemoryRegionConfig>,
    pub binaries: Vec<Binary>,
    pub io_devices: Vec<IODeviceRegion<I>>,
    pub mmio_devices: Vec<MMIODeviceRegion<M>>,
    pub irq_map: Vec<IrqMap>,
    pub code_entry: usize,
    pub total_vcpus: u8,
}

/// Guest address the memory map is placed at.
pub const MEM_MAP_ADDR: u64 = 0x7000;

/// Magic number at the start of the memory map.
pub const MEM_MAP_MAGIC: u32 = 0xFE02FE02;

/// Guest address the DSDT is placed at.
pub const DSDT_ADDR: u64 = 0xE0800;

/// Start of the span owned by the in-kernel IOAPIC and LAPIC.
pub const APIC_RESERVED_START: u64 = 0xFEC0_0000;

/// End of the span owned by the in-kernel IOAPIC and LAPIC.
pub const APIC_RESERVED_END: u64 = 0xFEE0_1000;

/// Start of the MMIO window of the virtio devices.
pub const MMIO_WINDOW_START: u64 = 0x400000000;

/// End of the MMIO window of the virtio devices.
pub const MMIO_WINDOW_END: u64 = 0x400010000;

pub open spec fn entry(start: u64, end: u64, t: MemType) -> MemMap {
    MemMap { start, end, mem_type: mem_type_code(t) }
}

/// The memory map of a machine whose RAM ends at `ram_end`: fixed low-memory
/// regions, conventional RAM up to the APIC span, the APIC span reserved,
/// conventional RAM from there to the end of RAM, and the MMIO window.
pub open spec fn mem_map_entries(ram_end: u64) -> Seq<MemMap> {
    seq![
        entry(0x00000, 0x00500, MemType::Reserved),  // real-mode IVT and BDA
        entry(0x00500, 0x9F000, MemType::ConventionalMemory),  // free low memory (trampoline)
        entry(0x9F000, 0xA0000, MemType::ACPIReclaimMemory),  // EBDA
        entry(0xA0000, 0x100000, MemType::Reserved),  // VGA, option ROMs, BIOS shadow
        entry(0x100000, 0x200000, MemType::BootServicesCode),  // firmware image
        entry(0x200000, 0x3000000, MemType::ConventionalMemory),
        entry(0x3000000, 0x4000000, MemType::RuntimeServicesData),  // firmware heap
        entry(0x4000000, APIC_RESERVED_START, MemType::ConventionalMemory),
        entry(APIC_RESERVED_START, APIC_RESERVED_END, MemType::Reserved),  // IOAPIC and LAPIC
        entry(APIC_RESERVED_END, ram_end, MemType::ConventionalMemory),
        entry(MMIO_WINDOW_START, MMIO_WINDOW_END, MemType::MMIO)
    ]
}

/// The entries as bytes, one after the other.
pub open spec fn mem_map_entries_bytes(entries: Seq<MemMap>) -> Seq<u8>
    decreases entries.len(),
{
    if entries.len() == 0 {
        Seq::empty()
    } else {
        mem_map_entries_bytes(entries.drop_last()) + mem_map_entry_bytes(entries.last())
    }
}

/// The memory map as the firmware reads it: the header, then every entry.
pub open spec fn mem_map_image(ram_end: u64) -> Seq<u8> {
    mem_map_header_bytes(MemMapHeader { mgk_num: MEM_MAP_MAGIC, length: 11 })
        + mem_map_entries_bytes(mem_map_entries(ram_end))
}

/// The guest address just past the first RAM region: its offset plus its size.
pub open spec fn ram_end(regions: Seq<MemoryRegionConfig>) -> u64 {
    (regions[0].mem_offset + regions[0].mem_size) as u64
}

impl<I: IODevice, M: MMIODevice> MachineConfig<I, M> {
    /// Everything but the loaded images is as in `other`.
    pub open spec fn same_but_binaries(&self, other: &Self) -> bool {
        &&& self.memory_regions@ == other.memory_regions@
        &&& self.io_devices@ == other.io_devices@
        &&& self.mmio_devices@ == other.mmio_devices@
        &&& self.irq_map@ == other.irq_map@
        &&& self.code_entry == other.code_entry
        &&& self.total_vcpus == other.total_vcpus
    }

    /// Adds the memory map, built from the first RAM region, as an image at `MEM_MAP_ADDR`.
    pub fn inject_memmap(&mut self)
        requires
            old(self).memory_regions@.len() > 0,
            old(self).memory_regions@[0].mem_offset + old(self).memory_regions@[0].mem_size <= u64::MAX,
        ensures
            final(self).same_but_binaries(old(self)),
            final(self).binaries@.len() == old(self).binaries@.len() + 1,
            forall|i: int| 0 <= i < old(self).binaries@.len() ==> final(self).binaries@[i] == old(self).binaries@[i],
            final(self).binaries@.last().data@ == mem_map_image(ram_end(old(self).memory_regions@)),
            final(self).binaries@.last().offset == MEM_MAP_ADDR,
    {
        // Usable RAM above the APIC span runs up to the end of guest RAM.
        let ram_end = self.memory_regions[0].mem_offset + self.memory_regions[0].mem_size as u64;
        // The in-kernel KVM irqchip owns the IOAPIC through LAPIC span, so it
        // is one reserved hole; the map is listed in ascending order of start,
        // as UEFI and Limine expect.
        let mem_map: Vec<MemMap> = vec![
            MemMap { start: 0x00000, end: 0x00500, mem_type: MemType::Reserved.code() },
            MemMap { start: 0x00500, end: 0x9F000, mem_type: MemType::ConventionalMemory.code() },
            MemMap { start: 0x9F000, end: 0xA0000, mem_type: MemType::ACPIReclaimMemory.code() },
            MemMap { start: 0xA0000, end: 0x100000, mem_type: MemType::Reserved.code() },
            MemMap { start: 0x100000, end: 0x200000, mem_type: MemType::BootServicesCode.code() },
            MemMap { start: 0x200000, end: 0x3000000, mem_type: MemType::ConventionalMemory.code() },
            MemMap { start: 0x3000000, end: 0x4000000, mem_type: MemType::RuntimeServicesData.code() },
            MemMap { start: 0x4000000, end: APIC_RESERVED_START, mem_type: MemType::ConventionalMemory.code() },
            MemMap { start: APIC_RESERVED_START, end: APIC_RESERVED_END, mem_type: MemType::Reserved.code() },
            MemMap { start: APIC_RESERVED_END, end: ram_end, mem_type: MemType::ConventionalMemory.code() },
            MemMap { start: MMIO_WINDOW_START, end: MMIO_WINDOW_END, mem_type: MemType::MMIO.code() },
        ];
        assert(mem_map@ =~= mem_map_entries(ram_end));
        let mut memmap_bytes = MemMapHeader { mgk_num: MEM_MAP_MAGIC, length: mem_map.len() as u32 }.as_bytes();
        let ghost header = memmap_bytes@;
        let mut i: usize = 0;
        while i < mem_map.len()
            invariant
                i <= mem_map@.len(),
                memmap_bytes@ == header + mem_map_entries_bytes(mem_map@.subrange(0, i as int)),
            decreases mem_map@.len() - i,
        {
            let entry_bytes = mem_map[i].as_bytes();
            memmap_bytes.extend_from_slice(entry_bytes.as_slice());
            i = i + 1;
            assert(mem_map@.subrange(0, i as int).drop_last() =~= mem_map@.subrange(0, i - 1));
            assert(memmap_bytes@ =~= header + mem_map_entries_bytes(mem_map@.subrange(0, i as int)));
        }
        assert(mem_map@.subrange(0, mem_map@.len() as int) =~= mem_map@);
        self.binaries.push(Binary::new(memmap_bytes, MEM_MAP_ADDR));
    }

    /// Adds the ACPI tables as images: the DSDT `dsdt` as loaded, the FADT
    /// pointing at it, the MADT for `total_vcpus` processors, the RSDP, and the
    /// XSDT pointing at the FADT and the MADT.
    pub fn inject_acpi_tables(&mut self, dsdt: Binary)
        requires
            56 + 8 * old(self).total_vcpus <= 255,
        ensures
            final(self).same_but_binaries(old(self)),
            final(self).binaries@.len() == old(self).binaries@.len() + 5,
            forall|i: int| 0 <= i < old(self).binaries@.len() ==> final(self).binaries@[i] == old(self).binaries@[i],
            ({
                let n = old(self).binaries@.len() as int;
                let b = final(self).binaries@;
                &&& b[n].data@ == dsdt.data@ && b[n].offset == dsdt.offset
                &&& b[n + 1].data@ == fadt_image(dsdt.offset) && b[n + 1].offset == FADT_ADDR
                &&& b[n + 2].data@ == madt_image(old(self).total_vcpus) && b[n + 2].offset == MADT_ADDR
                &&& b[n + 3].data@ == rsdp_image(XSDT_ADDR) && b[n + 3].offset == RSDP_ADDR
                &&& b[n + 4].data@ == xsdt_image(seq![FADT_ADDR, MADT_ADDR]) && b[n + 4].offset == XSDT_ADDR
            }),
    {
        let fadt_bin = build_fadt(dsdt.offset);
        let madt_bin = build_madt(self.total_vcpus);
        let addrs: [u64; 2] = [fadt_bin.offset, madt_bin.offset];
        assert(addrs@ =~= seq![FADT_ADDR, MADT_ADDR]);
        let xsdt_bin = build_xsdt(&addrs);
        let rsdp_bin = build_rsdp(xsdt_bin.offset);
        self.binaries.push(dsdt);
        self.binaries.push(fadt_bin);
        self.binaries.push(madt_bin);
        self.binaries.push(rsdp_bin);
        self.binaries.push(xsdt_bin);
    }
}

/// The memory map lists its entries in ascending order of start address.
pub proof fn lemma_mem_map_sorted(ram_end: u64)
    ensures
        forall|i: int, j: int|
            0 <= i < j < mem_map_entries(ram_end).len() ==> #[trigger] mem_map_entries(ram_end)[i].start
                < #[trigger] mem_map_entries(ram_end)[j].start,
{
}

/// When RAM ends between the APIC span and the MMIO window, every entry is a
/// proper range and no two entries overlap.
pub proof fn lemma_mem_map_disjoint(ram_end: u64)
    requires
        APIC_RESERVED_END < ram_end <= MMIO_WINDOW_START,
    ensures
        forall|i: int|
            0 <= i < mem_map_entries(ram_end).len() ==> #[trigger] mem_map_entries(ram_end)[i].start
                < mem_map_entries(ram_end)[i].end,
        forall|i: int|
            0 <= i < mem_map_entries(ram_end).len() - 1 ==> #[trigger] mem_map_entries(ram_end)[i].end
                <= mem_map_entries(ram_end)[i + 1].start,
{
}

/// Entry `e` covers guest address `a`.
pub open spec fn covers_addr(e: MemMap, a: int) -> bool {
    e.start <= a < e.end
}

/// The memory map keeps the guest off what it must not use as RAM, at any end
/// of RAM: every address of the real-mode IVT and BIOS data area
/// `[0, 0x500)`, of the legacy VGA/ROM hole `[0xA0000, 0x100000)` and of the
/// IOAPIC-LAPIC span is covered by a Reserved (0) entry and by no entry of
/// another type. No conventional-memory (7) entry covers an address of these
/// areas, of the EBDA `[0x9F000, 0xA0000)`, of the firmware image
/// `[0x100000, 0x200000)` or of the firmware heap `[0x3000000, 0x4000000)`;
/// when RAM ends below the MMIO window, none covers the window either, which
/// is covered by an MMIO (11) entry.
pub proof fn lemma_mem_map_keeps_holes(ram_end: u64, a: int)
    ensures
        ({
            let es = mem_map_entries(ram_end);
            &&& (0 <= a < 0x500 || 0xA0000 <= a < 0x100000 || 0xFEC0_0000 <= a < 0xFEE0_1000) ==> {
                &&& exists|i: int| 0 <= i < es.len() && covers_addr(#[trigger] es[i], a) && es[i].mem_type == 0
                &&& forall|i: int| 0 <= i < es.len() && covers_addr(#[trigger] es[i], a) ==> es[i].mem_type == 0
            }
            &&& forall|i: int|
                0 <= i < es.len() && covers_addr(#[trigger] es[i], a) && es[i].mem_type == 7 ==> {
                    &&& !(0 <= a < 0x500)
                    &&& !(0x9F000 <= a < 0x100000)
                    &&& !(0x100000 <= a < 0x200000)
                    &&& !(0x3000000 <= a < 0x4000000)
                    &&& !(0xFEC0_0000 <= a < 0xFEE0_1000)
                    &&& (ram_end <= 0x4_0000_0000 ==> !(0x4_0000_0000 <= a < 0x4_0001_0000))
                }
            &&& 0x4_0000_0000 <= a < 0x4_0001_0000 ==> exists|i: int|
                0 <= i < es.len() && covers_addr(#[trigger] es[i], a) && es[i].mem_type == 11
        }),
{
    let es = mem_map_entries(ram_end);
    assert(es.len() == 11);
    if 0 <= a < 0x500 {
        assert(covers_addr(es[0], a));
    }
    if 0xA0000 <= a < 0x100000 {
        assert(covers_addr(es[3], a));
    }
    if 0xFEC0_0000 <= a < 0xFEE0_1000 {
        assert(covers_addr(es[8], a));
    }
    if 0x4_0000_0000 <= a < 0x4_0001_0000 {
        assert(covers_addr(es[10], a));
    }
}

/// The memory map hands the guest its RAM and names the firmware's areas:
/// every address of `[0x500, 0x9F000)`, `[0x200000, 0x3000000)`,
/// `[0x4000000, 0xFEC00000)` and `[0xFEE01000, ram_end)` is covered by a
/// conventional-memory (7) entry; the EBDA `[0x9F000, 0xA0000)` by an ACPI
/// reclaim (9) entry, the firmware image `[0x100000, 0x200000)` by a boot
/// services code (3) entry and the firmware heap `[0x3000000, 0x4000000)` by a
/// runtime services data (6) entry.
pub proof fn lemma_mem_map_usable(ram_end: u64, a: int)
    ensures
        ({
            let es = mem_map_entries(ram_end);
            &&& (0x500 <= a < 0x9F000 || 0x200000 <= a < 0x3000000 || 0x4000000 <= a < 0xFEC0_0000 || 0xFEE0_1000
                <= a < ram_end) ==> exists|i: int|
                0 <= i < es.len() && covers_addr(#[trigger] es[i], a) && es[i].mem_type == 7
            &&& 0x9F000 <= a < 0xA0000 ==> exists|i: int|
                0 <= i < es.len() && covers_addr(#[trigger] es[i], a) && es[i].mem_type == 9
            &&& 0x100000 <= a < 0x200000 ==> exists|i: int|
                0 <= i < es.len() && covers_addr(#[trigger] es[i], a) && es[i].mem_type == 3
            &&& 0x3000000 <= a < 0x4000000 ==> exists|i: int|
                0 <= i < es.len() && covers_addr(#[trigger] es[i], a) && es[i].mem_type == 6
        }),
{
    let es = mem_map_entries(ram_end);
    if 0x500 <= a < 0x9F000 {
        assert(covers_addr(es[1], a));
    }
    if 0x200000 <= a < 0x3000000 {
        assert(covers_addr(es[5], a));
    }
    if 0x4000000 <= a < 0xFEC0_0000 {
        assert(covers_addr(es[7], a));
    }
    if 0xFEE0_1000 <= a < ram_end {
        assert(covers_addr(es[9], a));
    }
    if 0x9F000 <= a < 0xA0000 {
        assert(covers_addr(es[2], a));
    }
    if 0x100000 <= a < 0x200000 {
        assert(covers_addr(es[4], a));
    }
    if 0x3000000 <= a < 0x4000000 {
        assert(covers_addr(es[6], a));
    }
}

proof fn lemma_entries_bytes_at(es: Seq<MemMap>, i: int)
    requires
        0 <= i < es.len(),
    ensures
        mem_map_entries_bytes(es).len() == 20 * es.len(),
        mem_map_entries_bytes(es).subrange(20 * i, 20 * i + 20) == mem_map_entry_bytes(es[i]),
    decreases es.len(),
{
    vstd::bytes::lemma_auto_spec_u32_to_from_le_bytes();
    vstd::bytes::lemma_auto_spec_u64_to_from_le_bytes();
    let init = es.drop_last();
    let b = mem_map_entries_bytes(es);
    let ib = mem_map_entries_bytes(init);
    let last = mem_map_entry_bytes(es.last());
    assert(last.len() == 20);
    if init.len() > 0 {
        if i < init.len() {
            lemma_entries_bytes_at(init, i);
            assert(b.subrange(20 * i, 20 * i + 20) =~= ib.subrange(20 * i, 20 * i + 20));
        } else {
            lemma_entries_bytes_at(init, 0);
            assert(b.subrange(20 * i, 20 * i + 20) =~= last);
        }
    } else {
        assert(ib =~= Seq::<u8>::empty());
        assert(b.subrange(20 * i, 20 * i + 20) =~= last);
    }
}

/// The memory map image is the magic number 0xFE02FE02 and the entry count 11,
/// each little-endian 32-bit, followed by the entries in order: entry `i`
/// occupies bytes `8 + 20 i` to `28 + 20 i` as its start and end
/// (little-endian 64-bit) and its type (little-endian 32-bit).
pub proof fn lemma_mem_map_image_layout(ram_end: u64, i: int)
    requires
        0 <= i < 11,
    ensures
        ({
            let img = mem_map_image(ram_end);
            let e = mem_map_entries(ram_end)[i];
            &&& img.len() == 8 + 20 * 11
            &&& vstd::bytes::spec_u32_from_le_bytes(img.subrange(0, 4)) == 0xFE02FE02
            &&& vstd::bytes::spec_u32_from_le_bytes(img.subrange(4, 8)) == 11
            &&& vstd::bytes::spec_u64_from_le_bytes(img.subrange(8 + 20 * i, 16 + 20 * i)) == e.start
            &&& vstd::bytes::spec_u64_from_le_bytes(img.subrange(16 + 20 * i, 24 + 20 * i)) == e.end
            &&& vstd::bytes::spec_u32_from_le_bytes(img.subrange(24 + 20 * i, 28 + 20 * i)) == e.mem_type
        }),
{
    vstd::bytes::lemma_auto_spec_u32_to_from_le_bytes();
    vstd::bytes::lemma_auto_spec_u64_to_from_le_bytes();
    let es = mem_map_entries(ram_end);
    let img = mem_map_image(ram_end);
    let h = mem_map_header_bytes(MemMapHeader { mgk_num: MEM_MAP_MAGIC, length: 11 });
    let eb = mem_map_entries_bytes(es);
    lemma_entries_bytes_at(es, i);
    assert(h.len() == 8);
    let e = es[i];
    let x = mem_map_entry_bytes(e);
    assert(img.subrange(0, 4) =~= spec_u32_to_le_bytes(MEM_MAP_MAGIC));
    assert(img.subrange(4, 8) =~= spec_u32_to_le_bytes(11));
    assert(img.subrange(8 + 20 * i, 28 + 20 * i) =~= eb.subrange(20 * i, 20 * i + 20));
    assert(img.subrange(8 + 20 * i, 16 + 20 * i) =~= x.subrange(0, 8));
    assert(img.subrange(16 + 20 * i, 24 + 20 * i) =~= x.subrange(8, 16));
    assert(img.subrange(24 + 20 * i, 28 + 20 * i) =~= x.subrange(16, 20));
    assert(x.subrange(0, 8) =~= spec_u64_to_le_bytes(e.start));
    assert(x.subrange(8, 16) =~= spec_u64_to_le_bytes(e.end));
    assert(x.subrange(16, 20) =~= spec_u32_to_le_bytes(e.mem_type));
}

} // verus!
