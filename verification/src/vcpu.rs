//! The state a vCPU starts in: real mode at the reset entry, CPUID as the guest sees it.
use vstd::prelude::*;

verus! {

/// One CPUID leaf as KVM reports it.
#[derive(Clone, Copy, Debug, PartialEq, Eq, Structural)]
pub struct CpuidEntry {
    pub function: u32,
    pub index: u32,
    pub flags: u32,
    pub eax: u32,
    pub ebx: u32,
    pub ecx: u32,
    pub edx: u32,
}

/// PAT (bit 16) in CPUID 1 EDX.
pub const CPUID_1_EDX_PAT: u32 = 1u32 << 16;

/// A CPUID leaf with PAT hidden from the guest.
pub open spec fn spec_filter_cpuid_entry(e: CpuidEntry) -> CpuidEntry {
    if e.function == 0x1 {
        CpuidEntry { edx: e.edx & !CPUID_1_EDX_PAT, ..e }
    } else {
        e
    }
}

/// Hides PAT in every leaf the vCPU is given.
pub fn filter_cpuid(cpuid: &mut Vec<CpuidEntry>)
    ensures
        final(cpuid)@ == old(cpuid)@.map_values(|e: CpuidEntry| spec_filter_cpuid_entry(e)),
{
    let mut i: usize = 0;
    while i < cpuid.len()
        invariant
            i <= cpuid@.len(),
            cpuid@.len() == old(cpuid)@.len(),
            forall|k: int| 0 <= k < i ==> cpuid@[k] == spec_filter_cpuid_entry(old(cpuid)@[k]),
            forall|k: int| i <= k < cpuid@.len() ==> cpuid@[k] == old(cpuid)@[k],
        decreases cpuid@.len() - i,
    {
        let mut entry = cpuid[i];
        if entry.function == 0x1 {
            // CPUID.1:EDX[16] = PAT
            entry.edx = entry.edx & !CPUID_1_EDX_PAT;
        }
        cpuid.set(i, entry);
        i = i + 1;
    }
    assert(cpuid@ =~= old(cpuid)@.map_values(|e: CpuidEntry| spec_filter_cpuid_entry(e)));
}

/// A segment register as KVM describes it.
#[derive(Clone, Copy, Debug, PartialEq, Eq, Structural)]
pub struct Segment {
    pub base: u64,
    pub limit: u32,
    pub selector: u16,
    pub type_: u8,
    pub present: u8,
    pub dpl: u8,
    pub db: u8,
    pub s: u8,
    pub l: u8,
    pub g: u8,
    pub avl: u8,
    pub unusable: u8,
}

/// A present, 64 KiB, 16-bit code or data segment at `base` of type `type_`.
pub open spec fn real_mode_segment(base: u64, selector: u16, type_: u8) -> Segment {
    Segment {
        base,
        limit: 0xFFFF,
        selector,
        type_,
        present: 1,
        dpl: 0,
        db: 0,
        s: 1,
        l: 0,
        g: 0,
        avl: 0,
        unusable: 0,
    }
}

/// A real-mode code segment (type 0xA: execute/read).
pub fn real_mode_code_seg(base: u64, selector: u16) -> (r: Segment)
    ensures
        r == real_mode_segment(base, selector, 0xA),
{
    Segment {
        base,
        limit: 0xFFFF,
        selector,
        type_: 0xA,  // execute/read
        present: 1,
        dpl: 0,
        db: 0,
        s: 1,
        l: 0,
        g: 0,
        avl: 0,
        unusable: 0,
    }
}

/// A real-mode data segment (type 0x2: read/write).
pub fn real_mode_data_seg(base: u64, selector: u16) -> (r: Segment)
    ensures
        r == real_mode_segment(base, selector, 0x2),
{
    Segment {
        base,
        limit: 0xFFFF,
        selector,
        type_: 0x2,  // read/write
        present: 1,
        dpl: 0,
        db: 0,
        s: 1,
        l: 0,
        g: 0,
        avl: 0,
        unusable: 0,
    }
}

/// CR0 for real mode: protection off (bit 0 clear), numeric error (bit 5) set.
pub open spec fn spec_real_mode_cr0(cr0: u64) -> u64 {
    (cr0 & !0x1u64) | 0x20u64
}

pub fn real_mode_cr0(cr0: u64) -> (r: u64)
    ensures
        r == spec_real_mode_cr0(cr0),
{
    (cr0 & !0x1) | 0x20
}

/// CR4 for the guest: OSFXSR (bit 9) and OSXMMEXCPT (bit 10).
pub const GUEST_CR4: u64 = (1u64 << 9) | (1u64 << 10);

/// The general registers the boot vCPU starts with.
#[derive(Clone, Copy, Debug, PartialEq, Eq, Structural)]
pub struct BootRegs {
    pub rip: u64,
    pub rsp: u64,
    pub rsi: u64,
    pub rflags: u64,
}

/// The boot vCPU starts at `entry` with its stack at 0x0FF0, RSI at the zero
/// page and interrupts enabled (RFLAGS 0x202).
pub fn boot_regs(entry: usize) -> (r: BootRegs)
    ensures
        r == (BootRegs { rip: entry as u64, rsp: 0x0FF0, rsi: 0x20000, rflags: 0x202 }),
{
    BootRegs { rip: entry as u64, rsp: 0x0FF0, rsi: 0x20000, rflags: 0x202 }
}

/// vCPU 0 starts running; the others wait, uninitialized, for the boot processor.
pub fn starts_running(vcpu_id: u64) -> (r: bool)
    ensures
        r == (vcpu_id == 0),
{
    vcpu_id == 0
}

/// Leaf 1 hides PAT (EDX bit 16) and keeps every other bit and register; every
/// other leaf is passed on unchanged.
pub proof fn lemma_filter_cpuid_hides_pat(e: CpuidEntry)
    ensures
        ({
            let r = spec_filter_cpuid_entry(e);
            &&& e.function == 1 ==> {
                &&& r.edx & (1u32 << 16u32) == 0
                &&& r.edx | (1u32 << 16u32) == e.edx | (1u32 << 16u32)
                &&& r == (CpuidEntry { edx: r.edx, ..e })
            }
            &&& e.function != 1 ==> r == e
        }),
{
    let x = e.edx;
    assert((x & !(1u32 << 16u32)) & (1u32 << 16u32) == 0 && (x & !(1u32 << 16u32)) | (1u32 << 16u32) == x | (
    1u32 << 16u32)) by (bit_vector);
}

/// Real mode: CR0 has protection (bit 0) off and numeric error (bit 5) on,
/// every other bit as it was.
pub proof fn lemma_real_mode_cr0(cr0: u64)
    ensures
        spec_real_mode_cr0(cr0) & 1 == 0,
        spec_real_mode_cr0(cr0) & 0x20 == 0x20,
        spec_real_mode_cr0(cr0) & !0x21u64 == cr0 & !0x21u64,
{
    assert(((cr0 & !0x1u64) | 0x20u64) & 1 == 0 && ((cr0 & !0x1u64) | 0x20u64) & 0x20 == 0x20 && ((cr0
        & !0x1u64) | 0x20u64) & !0x21u64 == cr0 & !0x21u64) by (bit_vector);
}

/// A real-mode segment is a present, ring-0, 16-bit, byte-granular code or data
/// segment of 64 KiB at the base given.
pub proof fn lemma_real_mode_segment(base: u64, selector: u16, type_: u8)
    ensures
        ({
            let s = real_mode_segment(base, selector, type_);
            &&& s.base == base && s.selector == selector && s.type_ == type_
            &&& s.limit == 0xFFFF
            &&& s.present == 1 && s.dpl == 0 && s.db == 0 && s.s == 1
            &&& s.l == 0 && s.g == 0 && s.avl == 0 && s.unusable == 0
        }),
{
}

} // verus!
