//! The Fixed ACPI Description Table (FADT, signature "FACP").
use vstd::prelude::*;
use vstd::bytes::{spec_u16_to_le_bytes, spec_u32_to_le_bytes, spec_u64_to_le_bytes, u16_to_le_bytes, u32_to_le_bytes, u64_to_le_bytes};
use crate::bytes::{acpi_checksum, byte_sum, checksum_byte, lemma_checksum_zero, zeros};
use crate::machine_config::binary::Binary;

verus! {

/// Length of the FADT (ACPI 3.0).
pub const FADT_LEN: usize = 244;

/// Guest physical address the FADT is placed at.
pub const FADT_ADDR: u64 = 0xE0400;

/// Offset of the checksum byte in every ACPI table header.
pub const ACPI_CHECKSUM_OFFSET: usize = 9;

/// "FACP"
pub open spec fn fadt_signature() -> Seq<u8> {
    seq![0x46, 0x41, 0x43, 0x50]
}

/// "FERRUM", the OEM ID of every table.
pub open spec fn oem_id() -> Seq<u8> {
    seq![0x46, 0x45, 0x52, 0x52, 0x55, 0x4D]
}

/// "FVM_FADT"
pub open spec fn fadt_oem_table_id() -> Seq<u8> {
    seq![0x46, 0x56, 0x4D, 0x5F, 0x46, 0x41, 0x44, 0x54]
}

/// "FVM "
pub open spec fn fvm_creator_id() -> Seq<u8> {
    seq![0x46, 0x56, 0x4D, 0x20]
}

/// The FADT with a zero checksum byte, field by field in order of offset.
pub open spec fn fadt_body(dsdt_addr: u64) -> Seq<u8> {
    // Header (36 bytes): signature, length, revision (ACPI 3.0), checksum,
    // OEM ID, OEM table ID, OEM revision, creator ID, creator revision
    fadt_signature() + spec_u32_to_le_bytes(FADT_LEN as u32) + seq![2u8, 0u8] + oem_id()
        + fadt_oem_table_id() + spec_u32_to_le_bytes(1) + fvm_creator_id() + spec_u32_to_le_bytes(1)
    // 36: FIRMWARE_CTRL (no FACS), 40: DSDT, 44: reserved, preferred PM profile
        + spec_u32_to_le_bytes(0) + spec_u32_to_le_bytes(dsdt_addr as u32) + zeros(2)
    // 46: SCI_INT, 48: SMI_CMD, 52: ACPI_ENABLE, ACPI_DISABLE, S4BIOS_REQ, PSTATE_CNT
        + spec_u16_to_le_bytes(9) + spec_u32_to_le_bytes(0xB2) + seq![0xF1u8, 0xF0u8, 0u8, 0u8]
    // 56: PM1a_EVT_BLK, 60: PM1b_EVT_BLK, 64: PM1a_CNT_BLK, 68: PM1b_CNT_BLK, PM2_CNT_BLK
        + spec_u32_to_le_bytes(0x0600) + zeros(4) + spec_u32_to_le_bytes(0x0604) + zeros(8)
    // 76: PM_TMR_BLK, 80: GPE0_BLK, 84: GPE1_BLK
        + spec_u32_to_le_bytes(0x0608) + spec_u32_to_le_bytes(0x0620) + zeros(4)
    // 88: PM1_EVT_LEN, PM1_CNT_LEN, PM2_CNT_LEN, PM_TMR_LEN, 92: GPE0_BLK_LEN .. 105
        + seq![4u8, 2u8, 0u8, 4u8] + seq![0x10u8] + zeros(13)
    // 106: RTC day alarm index, month alarm index, century index
        + seq![0x0Du8, 0u8, 0x32u8]
    // 109: IAPC boot flags, 111: reserved, 112: flags (WBINVD, WBINVD_FLUSH)
        + spec_u16_to_le_bytes(0) + zeros(1) + spec_u32_to_le_bytes(0x03)
    // 116: reset register (system IO, 8 bits, offset 0, byte access) at port 0xCF9
        + seq![1u8, 8u8, 0u8, 1u8] + spec_u64_to_le_bytes(0x0CF9)
    // 128: reset value, 129: reserved
        + seq![0x0Au8] + zeros(3)
    // 132: X_FIRMWARE_CTRL, 140: X_DSDT, 148 .. 244: extended blocks, unused
        + spec_u64_to_le_bytes(0) + spec_u64_to_le_bytes(dsdt_addr) + zeros(96)
}

/// The finished table: the body with its checksum byte filled in.
#[verifier::opaque]
pub open spec fn fadt_image(dsdt_addr: u64) -> Seq<u8> {
    fadt_body(dsdt_addr).update(9, acpi_checksum(fadt_body(dsdt_addr)))
}

/// The FADT pointing at the DSDT at `dsdt_addr`, placed at `FADT_ADDR`: the
/// body with its checksum byte filled in, so that all bytes sum to zero.
pub fn build_fadt(dsdt_addr: u64) -> (r: Binary)
    ensures
        r.offset == FADT_ADDR,
        r.data@ == fadt_image(dsdt_addr),
        r.data@.len() == FADT_LEN,
        byte_sum(r.data@) % 256 == 0,
{
    proof {
        reveal(fadt_image);
    }
    proof {
        vstd::bytes::lemma_auto_spec_u16_to_from_le_bytes();
        vstd::bytes::lemma_auto_spec_u32_to_from_le_bytes();
        vstd::bytes::lemma_auto_spec_u64_to_from_le_bytes();
    }
    let mut fadt: Vec<u8> = Vec::new();
    // Header (36 bytes)
    fadt.extend_from_slice(&[0x46, 0x41, 0x43, 0x50]);  // "FACP"
    fadt.extend_from_slice(u32_to_le_bytes(FADT_LEN as u32).as_slice());  // Length
    fadt.extend_from_slice(&[2, 0]);  // Revision (ACPI 3.0), checksum (calculated later)
    fadt.extend_from_slice(&[0x46, 0x45, 0x52, 0x52, 0x55, 0x4D]);  // "FERRUM"
    fadt.extend_from_slice(&[0x46, 0x56, 0x4D, 0x5F, 0x46, 0x41, 0x44, 0x54]);  // "FVM_FADT"
    fadt.extend_from_slice(u32_to_le_bytes(1).as_slice());  // OEM Revision
    fadt.extend_from_slice(&[0x46, 0x56, 0x4D, 0x20]);  // "FVM "
    fadt.extend_from_slice(u32_to_le_bytes(1).as_slice());  // Creator Revision
    // Firmware Control (FACS) - 0, no FACS used
    fadt.extend_from_slice(u32_to_le_bytes(0).as_slice());
    // DSDT (32-bit address)
    fadt.extend_from_slice(u32_to_le_bytes(dsdt_addr as u32).as_slice());
    fadt.extend_from_slice(&[0, 0]);
    // SCI_INT
    fadt.extend_from_slice(u16_to_le_bytes(9).as_slice());
    // SMI command port / ACPI enable-disable writes (QEMU-style, unused by guest)
    fadt.extend_from_slice(u32_to_le_bytes(0xB2).as_slice());
    fadt.extend_from_slice(&[0xF1, 0xF0, 0, 0]);
    // Power management block IO ports (QEMU PIIX-style)
    fadt.extend_from_slice(u32_to_le_bytes(0x0600).as_slice());  // PM1a_EVT_BLK
    fadt.extend_from_slice(&[0, 0, 0, 0]);
    fadt.extend_from_slice(u32_to_le_bytes(0x0604).as_slice());  // PM1a_CNT_BLK
    fadt.extend_from_slice(&[0, 0, 0, 0, 0, 0, 0, 0]);
    fadt.extend_from_slice(u32_to_le_bytes(0x0608).as_slice());  // PM_TMR_BLK
    fadt.extend_from_slice(u32_to_le_bytes(0x0620).as_slice());  // GPE0_BLK
    fadt.extend_from_slice(&[0, 0, 0, 0]);
    fadt.extend_from_slice(&[4, 2, 0, 4]);  // PM1_EVT_LEN, PM1_CNT_LEN, -, PM_TMR_LEN
    fadt.extend_from_slice(&[0x10]);  // GPE0_BLK_LEN
    fadt.extend_from_slice(&[0, 0, 0, 0, 0, 0, 0, 0, 0, 0, 0, 0, 0]);
    // RTC device registers (CMOS): day alarm index, -, century index
    fadt.extend_from_slice(&[0x0D, 0, 0x32]);
    // IAPC Boot Flags = 0 (legacy devices + MSI supported)
    fadt.extend_from_slice(u16_to_le_bytes(0).as_slice());
    fadt.extend_from_slice(&[0]);
    // Flags: WBINVD (bit 0), WBINVD_FLUSH (bit 1)
    fadt.extend_from_slice(u32_to_le_bytes(0x03).as_slice());
    // Reset Register: system IO, bit width 8, bit offset 0, byte access, port 0xCF9
    fadt.extend_from_slice(&[1, 8, 0, 1]);
    fadt.extend_from_slice(u64_to_le_bytes(0x0CF9).as_slice());
    fadt.extend_from_slice(&[0x0A, 0, 0, 0]);  // Reset value
    // X_FACS (64-bit) - 0, no FACS used
    fadt.extend_from_slice(u64_to_le_bytes(0).as_slice());
    // X_DSDT (64-bit address)
    fadt.extend_from_slice(u64_to_le_bytes(dsdt_addr).as_slice());
    let tail = vec![0u8; 96];
    fadt.extend_from_slice(tail.as_slice());
    assert(fadt@ =~= fadt_body(dsdt_addr));
    // Calculate Checksum so the whole table sums to 0
    let checksum = checksum_byte(fadt.as_slice());
    proof {
        lemma_checksum_zero(fadt@, 9);
    }
    fadt.set(ACPI_CHECKSUM_OFFSET, checksum);
    Binary::new(fadt, FADT_ADDR)
}

/// The FADT carries its own length (244) and points at the DSDT through both
/// its 32-bit and its 64-bit field.
pub proof fn lemma_fadt_fields(dsdt_addr: u64)
    ensures
        fadt_image(dsdt_addr).subrange(0, 4) == fadt_signature(),
        vstd::bytes::spec_u32_from_le_bytes(fadt_image(dsdt_addr).subrange(4, 8)) == fadt_image(dsdt_addr).len(),
        vstd::bytes::spec_u32_from_le_bytes(fadt_image(dsdt_addr).subrange(40, 44)) == dsdt_addr as u32,
        vstd::bytes::spec_u64_from_le_bytes(fadt_image(dsdt_addr).subrange(140, 148)) == dsdt_addr,
{
    reveal(fadt_image);
    vstd::bytes::lemma_auto_spec_u16_to_from_le_bytes();
    vstd::bytes::lemma_auto_spec_u32_to_from_le_bytes();
    vstd::bytes::lemma_auto_spec_u64_to_from_le_bytes();
    let t = fadt_image(dsdt_addr);
    assert(t.len() == FADT_LEN);
    assert(t.subrange(0, 4) =~= fadt_signature());
    assert(t.subrange(4, 8) =~= spec_u32_to_le_bytes(244));
    assert(t.subrange(40, 44) =~= spec_u32_to_le_bytes(dsdt_addr as u32));
    assert(t.subrange(140, 148) =~= spec_u64_to_le_bytes(dsdt_addr));
}

/// The FADT describes the PIIX-style power-management hardware the guest
/// drives: SCI on IRQ 9, SMI command port 0xB2 with ACPI enable 0xF1 and
/// disable 0xF0, the PM1a event block at port 0x600 (4 bytes), the PM1a control
/// block at 0x604 (2 bytes), the PM timer at 0x608 (4 bytes), GPE0 at 0x620
/// (16 bytes), the CMOS century at index 0x32, WBINVD flags, and reset by
/// writing 0x0A to port 0xCF9.
pub proof fn lemma_fadt_power_management(dsdt_addr: u64)
    ensures
        vstd::bytes::spec_u16_from_le_bytes(fadt_image(dsdt_addr).subrange(46, 48)) == 9,
        vstd::bytes::spec_u32_from_le_bytes(fadt_image(dsdt_addr).subrange(48, 52)) == 0xB2,
        fadt_image(dsdt_addr)[52] == 0xF1,
        fadt_image(dsdt_addr)[53] == 0xF0,
        vstd::bytes::spec_u32_from_le_bytes(fadt_image(dsdt_addr).subrange(56, 60)) == 0x0600,
        fadt_image(dsdt_addr).subrange(60, 64) == seq![0u8, 0u8, 0u8, 0u8],
        vstd::bytes::spec_u32_from_le_bytes(fadt_image(dsdt_addr).subrange(64, 68)) == 0x0604,
        fadt_image(dsdt_addr).subrange(68, 72) == seq![0u8, 0u8, 0u8, 0u8],
        vstd::bytes::spec_u32_from_le_bytes(fadt_image(dsdt_addr).subrange(76, 80)) == 0x0608,
        vstd::bytes::spec_u32_from_le_bytes(fadt_image(dsdt_addr).subrange(80, 84)) == 0x0620,
        fadt_image(dsdt_addr)[88] == 4,
        fadt_image(dsdt_addr)[89] == 2,
        fadt_image(dsdt_addr)[91] == 4,
        fadt_image(dsdt_addr)[92] == 0x10,
        fadt_image(dsdt_addr)[108] == 0x32,
        vstd::bytes::spec_u32_from_le_bytes(fadt_image(dsdt_addr).subrange(112, 116)) == 3,
        fadt_image(dsdt_addr).subrange(116, 120) == seq![1u8, 8u8, 0u8, 1u8],
        vstd::bytes::spec_u64_from_le_bytes(fadt_image(dsdt_addr).subrange(120, 128)) == 0x0CF9,
        fadt_image(dsdt_addr)[128] == 0x0A,
{
    reveal(fadt_image);
    vstd::bytes::lemma_auto_spec_u16_to_from_le_bytes();
    vstd::bytes::lemma_auto_spec_u32_to_from_le_bytes();
    vstd::bytes::lemma_auto_spec_u64_to_from_le_bytes();
    let t = fadt_image(dsdt_addr);
    assert(t.len() == FADT_LEN);
    assert(t.subrange(46, 48) =~= spec_u16_to_le_bytes(9));
    assert(t.subrange(48, 52) =~= spec_u32_to_le_bytes(0xB2));
    assert(t.subrange(56, 60) =~= spec_u32_to_le_bytes(0x0600));
    assert(t.subrange(60, 64) =~= seq![0u8, 0u8, 0u8, 0u8]);
    assert(t.subrange(64, 68) =~= spec_u32_to_le_bytes(0x0604));
    assert(t.subrange(68, 72) =~= seq![0u8, 0u8, 0u8, 0u8]);
    assert(t.subrange(76, 80) =~= spec_u32_to_le_bytes(0x0608));
    assert(t.subrange(80, 84) =~= spec_u32_to_le_bytes(0x0620));
    assert(t.subrange(112, 116) =~= spec_u32_to_le_bytes(3));
    assert(t.subrange(116, 120) =~= seq![1u8, 8u8, 0u8, 1u8]);
    assert(t.subrange(120, 128) =~= spec_u64_to_le_bytes(0x0CF9));
}

/// The FADT is signed "FACP", 244 bytes long as its length field says,
/// revision 2, and names the OEM "FERRUM".
pub proof fn lemma_fadt_header(dsdt_addr: u64)
    ensures
        ({
            let t = fadt_image(dsdt_addr);
            &&& t.len() == 244
            &&& t.subrange(0, 4) == seq![0x46u8, 0x41u8, 0x43u8, 0x50u8]
            &&& vstd::bytes::spec_u32_from_le_bytes(t.subrange(4, 8)) == 244
            &&& t[8] == 2
            &&& t.subrange(10, 16) == seq![0x46u8, 0x45u8, 0x52u8, 0x52u8, 0x55u8, 0x4Du8]
        }),
{
    reveal(fadt_image);
    vstd::bytes::lemma_auto_spec_u16_to_from_le_bytes();
    vstd::bytes::lemma_auto_spec_u32_to_from_le_bytes();
    vstd::bytes::lemma_auto_spec_u64_to_from_le_bytes();
    let t = fadt_image(dsdt_addr);
    assert(t.subrange(0, 4) =~= seq![0x46u8, 0x41u8, 0x43u8, 0x50u8]);
    assert(t.subrange(4, 8) =~= spec_u32_to_le_bytes(244));
    assert(t.subrange(10, 16) =~= seq![0x46u8, 0x45u8, 0x52u8, 0x52u8, 0x55u8, 0x4Du8]);
}

} // verus!
