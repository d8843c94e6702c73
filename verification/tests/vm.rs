use ferrumvm::device_maps::io::{IODeviceMap, IODeviceRegion};
use ferrumvm::device_maps::mmio::{MMIODeviceMap, MMIODeviceRegion};
use ferrumvm::devices::serial::Serial;
use ferrumvm::devices::timer::Timer;
use ferrumvm::machine_config::machine_config::MemoryRegionConfig;
use ferrumvm::vcpu::{
    boot_regs, filter_cpuid, real_mode_code_seg, real_mode_cr0, real_mode_data_seg,
    starts_running, CpuidEntry, CPUID_1_EDX_PAT, GUEST_CR4,
};
use ferrumvm::vm::builder::{
    adjust_cpuid, adjust_cpuid_entry, binary_placement, kvm_memory_slots, kvm_slot_regions, unmask_lint0,
    PlacementError, APIC_LVT0, CPUID_EXT_LM_NX,
};
use ferrumvm::vm::run::{handle_exit, CrashReason, ExitAction, VcpuExitEvent, HALT_PORT};

#[test]
fn memory_slots_skip_the_apic_pages() {
    assert_eq!(
        kvm_memory_slots(0, 0x1_0000_0000),
        vec![
            (0, 0xFEC0_0000),
            (0xFEC0_1000, 0xFEE0_0000),
            (0xFEE0_1000, 0x1_0000_0000)
        ]
    );
}

#[test]
fn memory_slots_below_the_apic_are_one_slot() {
    assert_eq!(kvm_memory_slots(0, 0x1000_0000), vec![(0, 0x1000_0000)]);
}

#[test]
fn memory_slots_ending_inside_the_ioapic_page() {
    assert_eq!(kvm_memory_slots(0, 0xFEC0_0800), vec![(0, 0xFEC0_0000)]);
}

#[test]
fn memory_slots_above_the_apic_are_one_slot() {
    assert_eq!(
        kvm_memory_slots(0x1_0000_0000, 0x1000),
        vec![(0x1_0000_0000, 0x1_0000_1000)]
    );
}

#[test]
fn binary_placement_inside_region() {
    let mem = MemoryRegionConfig { mem_size: 0x10000, mem_offset: 0x1000 };
    assert_eq!(binary_placement(&mem, 0x1800, 0x100), Some(Ok(0x800)));
    assert_eq!(binary_placement(&mem, 0x1000, 0x10000), Some(Ok(0)));
}

#[test]
fn binary_placement_outside_region() {
    let mem = MemoryRegionConfig { mem_size: 0x10000, mem_offset: 0x1000 };
    assert_eq!(binary_placement(&mem, 0x800, 4), None);
    assert_eq!(binary_placement(&mem, 0x11000, 4), None);
}

#[test]
fn binary_placement_too_large() {
    let mem = MemoryRegionConfig { mem_size: 0x10000, mem_offset: 0 };
    assert_eq!(
        binary_placement(&mem, 0xFFF0, 0x20),
        Some(Err(PlacementError { needed: 0x20, available: 0x10, code_offset: 0xFFF0 }))
    );
}

fn leaf(function: u32) -> CpuidEntry {
    CpuidEntry { function, index: 0, flags: 0, eax: 0x8000_0000, ebx: 0x1234_5678, ecx: 0, edx: 0xFFFF_FFFF }
}

#[test]
fn cpuid_leaf_one_carries_the_apic_id() {
    let mut e = leaf(1);
    adjust_cpuid_entry(&mut e, 3);
    assert_eq!(e.ebx, 0x0334_5678);
    assert_eq!(e.edx, 0xFFFF_FFFF);
}

#[test]
fn cpuid_extended_range_and_long_mode() {
    let mut top = leaf(0x8000_0000);
    adjust_cpuid_entry(&mut top, 0);
    assert_eq!(top.eax, 0x8000_0001);
    let mut higher = CpuidEntry { eax: 0x8000_0008, ..leaf(0x8000_0000) };
    adjust_cpuid_entry(&mut higher, 0);
    assert_eq!(higher.eax, 0x8000_0008);
    let mut ext = CpuidEntry { edx: 0, ..leaf(0x8000_0001) };
    adjust_cpuid_entry(&mut ext, 0);
    assert_eq!(ext.edx, CPUID_EXT_LM_NX);
    assert_eq!(ext.edx, (1 << 29) | (1 << 20));
}

#[test]
fn cpuid_adjusts_every_leaf_and_leaves_others() {
    let mut entries = vec![leaf(0), leaf(1), leaf(7)];
    adjust_cpuid(&mut entries, 1);
    assert_eq!(entries[0], leaf(0));
    assert_eq!(entries[1].ebx, 0x0134_5678);
    assert_eq!(entries[2], leaf(7));
}

#[test]
fn cpuid_filter_hides_pat() {
    let mut entries = vec![leaf(1), leaf(2)];
    filter_cpuid(&mut entries);
    assert_eq!(entries[0].edx, 0xFFFF_FFFF & !CPUID_1_EDX_PAT);
    assert_eq!(entries[0].edx, 0xFFFE_FFFF);
    assert_eq!(entries[1], leaf(2));
}

#[test]
fn lint0_is_unmasked_and_nothing_else_changes() {
    let mut regs = vec![0xFFu8; 0x400];
    unmask_lint0(&mut regs);
    assert_eq!(&regs[APIC_LVT0..APIC_LVT0 + 4], &[0xFF, 0xFF, 0xFE, 0xFF]);
    assert!(regs[..APIC_LVT0].iter().all(|b| *b == 0xFF));
    assert!(regs[APIC_LVT0 + 4..].iter().all(|b| *b == 0xFF));
    let mut clear = vec![0u8; 0x360];
    unmask_lint0(&mut clear);
    assert_eq!(clear, vec![0u8; 0x360]);
}

#[test]
fn real_mode_state() {
    let cs = real_mode_code_seg(0xF0000, 0xF000);
    assert_eq!((cs.base, cs.selector, cs.limit, cs.type_, cs.present, cs.s), (0xF0000, 0xF000, 0xFFFF, 0xA, 1, 1));
    let ds = real_mode_data_seg(0, 0);
    assert_eq!((ds.base, ds.type_, ds.db, ds.l, ds.g), (0, 0x2, 0, 0, 0));
    assert_eq!(real_mode_cr0(0x6000_0011), 0x6000_0030);
    assert_eq!(GUEST_CR4, 0x600);
    let regs = boot_regs(0x100000);
    assert_eq!((regs.rip, regs.rsp, regs.rsi, regs.rflags), (0x100000, 0x0FF0, 0x20000, 0x202));
    assert!(starts_running(0));
    assert!(!starts_running(1));
}

fn maps() -> (IODeviceMap<Serial>, MMIODeviceMap<Timer>) {
    let mut io = IODeviceMap::new();
    let mut serial = Serial::new();
    serial.set_data(vec![b'k']);
    io.register(IODeviceRegion::new(0x3f8..=0x3ff, serial));
    let mut mmio = MMIODeviceMap::new();
    mmio.register(MMIODeviceRegion::new(0xd000_0000..=0xd000_0fff, Timer::new()));
    (io, mmio)
}

#[test]
fn exit_halt_port_stops_the_vm() {
    let (mut io, mut mmio) = maps();
    let r = handle_exit(&mut io, &mut mmio, VcpuExitEvent::IoOut { port: HALT_PORT, data: vec![0] });
    assert!(matches!(r, Err(CrashReason::Hlt)));
}

#[test]
fn exit_hlt_and_interrupted_resume() {
    let (mut io, mut mmio) = maps();
    assert!(matches!(handle_exit(&mut io, &mut mmio, VcpuExitEvent::Hlt), Ok(ExitAction::Resume)));
    assert!(matches!(handle_exit(&mut io, &mut mmio, VcpuExitEvent::Interrupted), Ok(ExitAction::Resume)));
}

#[test]
fn exit_port_read_goes_to_the_device() {
    let (mut io, mut mmio) = maps();
    match handle_exit(&mut io, &mut mmio, VcpuExitEvent::IoIn { port: 0x3f8, len: 1 }) {
        Ok(ExitAction::Reply(v)) => assert_eq!(v, vec![b'k']),
        _ => panic!("expected a reply"),
    }
}

#[test]
fn exit_unmapped_port_reads_all_ones() {
    let (mut io, mut mmio) = maps();
    match handle_exit(&mut io, &mut mmio, VcpuExitEvent::IoIn { port: 0x60, len: 2 }) {
        Ok(ExitAction::Reply(v)) => assert_eq!(v, vec![0xFF, 0xFF]),
        _ => panic!("expected a reply"),
    }
}

#[test]
fn exit_port_read_past_queued_data_pads_with_zeros() {
    let (mut io, mut mmio) = maps();
    match handle_exit(&mut io, &mut mmio, VcpuExitEvent::IoIn { port: 0x3f8, len: 2 }) {
        Ok(ExitAction::Reply(v)) => assert_eq!(v, vec![b'k', 0]),
        _ => panic!("expected a reply"),
    }
}

#[test]
fn exit_port_write_resumes() {
    let (mut io, mut mmio) = maps();
    let r = handle_exit(&mut io, &mut mmio, VcpuExitEvent::IoOut { port: 0x3f8, data: vec![b'x'] });
    assert!(matches!(r, Ok(ExitAction::Resume)));
    let r = handle_exit(&mut io, &mut mmio, VcpuExitEvent::IoOut { port: 0x80, data: vec![1] });
    assert!(matches!(r, Ok(ExitAction::Resume)));
}

#[test]
fn exit_mmio_accesses() {
    let (mut io, mut mmio) = maps();
    let r = handle_exit(&mut io, &mut mmio, VcpuExitEvent::MmioWrite { addr: 0xd000_0000, data: vec![1, 0, 0, 0] });
    assert!(matches!(r, Ok(ExitAction::Resume)));
    match handle_exit(&mut io, &mut mmio, VcpuExitEvent::MmioRead { addr: 0xe000_0000, len: 4 }) {
        Ok(ExitAction::Reply(v)) => assert_eq!(v, vec![0, 0, 0, 0]),
        _ => panic!("expected a reply"),
    }
    let r = handle_exit(&mut io, &mut mmio, VcpuExitEvent::MmioRead { addr: 0xd000_0000, len: 4 });
    assert!(matches!(r, Err(CrashReason::IncorrectMMIOReadLength)));
}

#[test]
fn exit_failures_stop_with_their_reason() {
    let (mut io, mut mmio) = maps();
    assert!(matches!(handle_exit(&mut io, &mut mmio, VcpuExitEvent::FailEntry), Err(CrashReason::FailedEntry)));
    assert!(matches!(handle_exit(&mut io, &mut mmio, VcpuExitEvent::Shutdown), Err(CrashReason::Shutdown)));
    assert!(matches!(handle_exit(&mut io, &mut mmio, VcpuExitEvent::RunFailed), Err(CrashReason::RunError)));
    assert!(matches!(handle_exit(&mut io, &mut mmio, VcpuExitEvent::Unhandled), Err(CrashReason::UnhandledExit)));
}

#[test]
fn slot_regions_number_slots_and_offset_into_the_mapping() {
    assert_eq!(
        kvm_slot_regions(0x1000, 0xFFFF_F000),
        vec![
            (0, 0x1000, 0xFEBF_F000, 0),
            (1, 0xFEC0_1000, 0x1F_F000, 0xFEC0_0000),
            (2, 0xFEE0_1000, 0x11F_F000, 0xFEE0_0000)
        ]
    );
    assert_eq!(kvm_slot_regions(0x5000, 0), vec![(0, 0x5000, 0, 0)]);
}
