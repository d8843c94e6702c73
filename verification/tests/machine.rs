use ferrumvm::bytes::{checksum_byte, put_bytes, wrapping_byte_sum};
use ferrumvm::device_maps::io::IODeviceRegion;
use ferrumvm::devices::serial::Serial;
use ferrumvm::devices::timer::Timer;
use ferrumvm::irq::map::IrqMap;
use ferrumvm::machine_config::acpi::fadt::{build_fadt, FADT_ADDR, FADT_LEN};
use ferrumvm::machine_config::acpi::madt::{build_madt, MADT_ADDR};
use ferrumvm::machine_config::acpi::rsdp::{build_rsdp, RSDP_ADDR};
use ferrumvm::machine_config::acpi::xsdt::{build_xsdt, XSDT_ADDR};
use ferrumvm::machine_config::binary::{
    Binary, BOOT_PARAMS_ADDR, CMDLINE_ADDR, KERNEL_ADDR, RESET_VECTOR_ADDR, SETUP_ADDR,
};
use ferrumvm::machine_config::machine_config::{
    MachineConfig, MemoryRegionConfig, DSDT_ADDR, MEM_MAP_ADDR, MEM_MAP_MAGIC,
};
use ferrumvm::machine_config::mem_map::{MemMap, MemMapHeader, MemType};

fn sum(data: &[u8]) -> u8 {
    data.iter().fold(0u8, |a, b| a.wrapping_add(*b))
}

fn le32(data: &[u8], at: usize) -> u32 {
    u32::from_le_bytes([data[at], data[at + 1], data[at + 2], data[at + 3]])
}

fn le64(data: &[u8], at: usize) -> u64 {
    let mut b = [0u8; 8];
    b.copy_from_slice(&data[at..at + 8]);
    u64::from_le_bytes(b)
}

#[test]
fn checksum_helpers() {
    assert_eq!(wrapping_byte_sum(&[200, 100, 1]), 45);
    assert_eq!(checksum_byte(&[200, 100, 1]), 211);
    assert_eq!(sum(&[200, 100, 1, 211]), 0);
    assert_eq!(checksum_byte(&[]), 0);
    let mut buf = vec![0u8; 6];
    put_bytes(&mut buf, 2, &[7, 8, 9]);
    assert_eq!(buf, vec![0, 0, 7, 8, 9, 0]);
}

#[test]
fn fadt_layout_and_checksum() {
    let f = build_fadt(DSDT_ADDR);
    assert_eq!(f.offset, FADT_ADDR);
    assert_eq!(f.data.len(), FADT_LEN);
    assert_eq!(f.data.len(), 244);
    assert_eq!(&f.data[0..4], b"FACP");
    assert_eq!(le32(&f.data, 4), 244);
    assert_eq!(f.data[8], 2);
    assert_eq!(&f.data[10..16], b"FERRUM");
    assert_eq!(le32(&f.data, 40), 0xE0800);
    assert_eq!(u16::from_le_bytes([f.data[46], f.data[47]]), 9);
    assert_eq!(le32(&f.data, 56), 0x600);
    assert_eq!(le32(&f.data, 76), 0x608);
    assert_eq!(f.data[108], 0x32);
    assert_eq!(f.data[128], 0x0A);
    assert_eq!(le64(&f.data, 140), 0xE0800);
    assert_eq!(sum(&f.data), 0);
}

#[test]
fn madt_lists_every_vcpu_then_the_ioapic() {
    let m = build_madt(2);
    assert_eq!(m.offset, MADT_ADDR);
    assert_eq!(m.data.len(), 44 + 2 * 8 + 12);
    assert_eq!(&m.data[0..4], b"APIC");
    assert_eq!(le32(&m.data, 4), 72);
    assert_eq!(le32(&m.data, 36), 0xFEE0_0000);
    assert_eq!(le32(&m.data, 40), 1);
    assert_eq!(&m.data[44..52], &[0, 8, 0, 0, 1, 0, 0, 0]);
    assert_eq!(&m.data[52..60], &[0, 8, 1, 1, 1, 0, 0, 0]);
    assert_eq!(&m.data[60..64], &[1, 12, 0, 0]);
    assert_eq!(le32(&m.data, 64), 0xFEC0_0000);
    assert_eq!(sum(&m.data), 0);
}

#[test]
fn madt_for_one_vcpu() {
    let m = build_madt(1);
    assert_eq!(m.data.len(), 64);
    assert_eq!(sum(&m.data), 0);
}

#[test]
fn xsdt_points_at_each_table() {
    let x = build_xsdt(&[FADT_ADDR, MADT_ADDR]);
    assert_eq!(x.offset, XSDT_ADDR);
    assert_eq!(x.data.len(), 52);
    assert_eq!(&x.data[0..4], b"XSDT");
    assert_eq!(le32(&x.data, 4), 52);
    assert_eq!(le64(&x.data, 36), FADT_ADDR);
    assert_eq!(le64(&x.data, 44), MADT_ADDR);
    assert_eq!(sum(&x.data), 0);
    let empty = build_xsdt(&[]);
    assert_eq!(empty.data.len(), 36);
    assert_eq!(sum(&empty.data), 0);
}

#[test]
fn rsdp_has_both_checksums() {
    let r = build_rsdp(XSDT_ADDR);
    assert_eq!(r.offset, RSDP_ADDR);
    assert_eq!(r.data.len(), 36);
    assert_eq!(&r.data[0..8], b"RSD PTR ");
    assert_eq!(r.data[15], 2);
    assert_eq!(le32(&r.data, 20), 36);
    assert_eq!(le64(&r.data, 24), XSDT_ADDR);
    assert_eq!(sum(&r.data[0..20]), 0);
    assert_eq!(sum(&r.data), 0);
}

#[test]
fn mem_type_codes() {
    assert_eq!(MemType::Reserved.code(), 0);
    assert_eq!(MemType::BootServicesCode.code(), 3);
    assert_eq!(MemType::ConventionalMemory.code(), 7);
    assert_eq!(MemType::ACPIReclaimMemory.code(), 9);
    assert_eq!(MemType::MMIO.code(), 11);
    assert_eq!(MemType::PersistentMemory.code(), 14);
}

#[test]
fn mem_map_entry_and_header_bytes() {
    let e = MemMap { start: 0x500, end: 0x9F000, mem_type: 7 };
    let b = e.as_bytes();
    assert_eq!(b.len(), 20);
    assert_eq!(le64(&b, 0), 0x500);
    assert_eq!(le64(&b, 8), 0x9F000);
    assert_eq!(le32(&b, 16), 7);
    let h = MemMapHeader { mgk_num: MEM_MAP_MAGIC, length: 11 };
    assert_eq!(h.as_bytes(), vec![0x02, 0xFE, 0x02, 0xFE, 11, 0, 0, 0]);
}

fn config(mem_size: usize, vcpus: u8) -> MachineConfig<Serial, Timer> {
    MachineConfig {
        memory_regions: vec![MemoryRegionConfig { mem_size, mem_offset: 0 }],
        binaries: vec![Binary::new(vec![0xF4], 0xFFF0)],
        io_devices: vec![IODeviceRegion::new(0x3f8..=0x3ff, Serial::new())],
        mmio_devices: Vec::new(),
        irq_map: vec![IrqMap::new(4, 4, 0)],
        code_entry: 0xFFF0,
        total_vcpus: vcpus,
    }
}

#[test]
fn inject_memmap_appends_the_map() {
    let mut c = config(0x1_0000_0000, 1);
    c.inject_memmap();
    assert_eq!(c.binaries.len(), 2);
    assert_eq!(c.binaries[0].data, vec![0xF4]);
    let map = &c.binaries[1];
    assert_eq!(map.offset, MEM_MAP_ADDR);
    assert_eq!(map.data.len(), 8 + 11 * 20);
    assert_eq!(le32(&map.data, 0), MEM_MAP_MAGIC);
    assert_eq!(le32(&map.data, 4), 11);
    let entry = |k: usize| {
        let at = 8 + k * 20;
        (le64(&map.data, at), le64(&map.data, at + 8), le32(&map.data, at + 16))
    };
    assert_eq!(entry(0), (0, 0x500, 0));
    assert_eq!(entry(1), (0x500, 0x9F000, 7));
    assert_eq!(entry(8), (0xFEC0_0000, 0xFEE0_1000, 0));
    assert_eq!(entry(9), (0xFEE0_1000, 0x1_0000_0000, 7));
    assert_eq!(entry(10), (0x4_0000_0000, 0x4_0001_0000, 11));
    for k in 1..11 {
        assert!(entry(k - 1).0 < entry(k).0);
    }
    assert_eq!(c.code_entry, 0xFFF0);
    assert_eq!(c.io_devices.len(), 1);
}

#[test]
fn inject_acpi_tables_appends_dsdt_then_tables() {
    let mut c = config(0x1000_0000, 2);
    c.inject_acpi_tables(Binary::new(b"DSDT".to_vec(), DSDT_ADDR));
    assert_eq!(c.binaries.len(), 6);
    let offsets: Vec<u64> = c.binaries.iter().map(|b| b.offset).collect();
    assert_eq!(offsets, vec![0xFFF0, DSDT_ADDR, FADT_ADDR, MADT_ADDR, RSDP_ADDR, XSDT_ADDR]);
    assert_eq!(c.binaries[1].data, b"DSDT".to_vec());
    assert_eq!(c.binaries[2].data, build_fadt(DSDT_ADDR).data);
    assert_eq!(c.binaries[3].data, build_madt(2).data);
    assert_eq!(c.binaries[4].data, build_rsdp(XSDT_ADDR).data);
    assert_eq!(c.binaries[5].data, build_xsdt(&[FADT_ADDR, MADT_ADDR]).data);
    assert_eq!(c.total_vcpus, 2);
}

fn bz_image(setup_sects: u8, kernel_len: usize) -> Vec<u8> {
    let sects = if setup_sects == 0 { 4 } else { setup_sects as usize };
    let mut img = vec![0u8; (sects + 1) * 512 + kernel_len];
    img[0x1F1] = setup_sects;
    img[0x202..0x206].copy_from_slice(b"HdrS");
    img[0x211] = 0x20;
    for k in 0..kernel_len {
        img[(sects + 1) * 512 + k] = (k % 251) as u8;
    }
    img
}

#[test]
fn bz_image_is_split_by_setup_sectors() {
    let img = bz_image(2, 100);
    let parts = Binary::load_bz_image(img.clone());
    assert_eq!(parts.len(), 4);
    assert_eq!(parts[0].offset, SETUP_ADDR);
    assert_eq!(parts[0].data, img[0..1536].to_vec());
    assert_eq!(parts[1].offset, KERNEL_ADDR);
    assert_eq!(parts[1].data, img[1536..].to_vec());
    assert_eq!(parts[2].offset, BOOT_PARAMS_ADDR);
    assert_eq!(parts[3].offset, CMDLINE_ADDR);
    assert_eq!(parts[3].data, b"console=ttyS0 earlyprintk=serial\0".to_vec());
}

#[test]
fn bz_image_with_zero_setup_sectors_means_four() {
    let img = bz_image(0, 10);
    let parts = Binary::load_bz_image(img.clone());
    assert_eq!(parts[0].data.len(), 2560);
    assert_eq!(parts[1].data, img[2560..].to_vec());
}

#[test]
fn boot_params_carry_header_and_loader_fields() {
    let img = bz_image(2, 0);
    let bp = Binary::load_bz_image(img.clone()).remove(2).data;
    assert_eq!(bp.len(), 4096);
    assert_eq!(&bp[0x202..0x206], b"HdrS");
    assert_eq!(bp[0x1F1], 2);
    assert_eq!(bp[0x210], 0xFF);
    assert_eq!(bp[0x211], 0x20 | 0x01 | 0x80);
    assert_eq!(u16::from_le_bytes([bp[0x224], bp[0x225]]), 0x7FF0);
    assert_eq!(u16::from_le_bytes([bp[0x1FA], bp[0x1FB]]), 0xFFFF);
    assert_eq!(le32(&bp, 0x228), 0x21000);
    assert_eq!(le32(&bp, 0x238), 32);
    assert_eq!(bp[0x1F0], 0);
    assert_eq!(bp[0x270], 0);
}

#[test]
fn reset_vector_jumps_to_the_firmware() {
    let r = Binary::reset_vector();
    assert_eq!(r.offset, RESET_VECTOR_ADDR);
    assert_eq!(r.offset, 0xFFF0);
    assert_eq!(r.data, vec![0xEA, 0x00, 0x7E, 0x00, 0x00]);
}

#[test]
fn inject_memmap_ram_runs_to_the_end_of_guest_ram() {
    let mut c = config(0x1_0000_0000, 1);
    c.memory_regions[0].mem_offset = 0x1000;
    c.inject_memmap();
    let map = &c.binaries[1].data;
    let at = 8 + 9 * 20;
    assert_eq!(le64(map, at), 0xFEE0_1000);
    assert_eq!(le64(map, at + 8), 0x1_0000_1000);
    assert_eq!(le32(map, at + 16), 7);
}
