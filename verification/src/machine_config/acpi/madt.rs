//! The Multiple APIC Description Table (MADT, signature "APIC"): one local APIC
//! per vCPU and one IOAPIC.
use vstd::prelude::*;
use vstd::bytes::{spec_u32_to_le_bytes, u32_to_le_bytes};
use crate::bytes::{acpi_checksum, byte_sum, checksum_byte, lemma_checksum_zero};
use crate::machine_config::acpi::fadt::{fvm_creator_id, oem_id, ACPI_CHECKSUM_OFFSET};
use crate::machine_config::binary::Binary;

verus! {

/// Guest physical address the MADT is placed at.
pub const MADT_ADDR: u64 = 0xE0500;

/// "APIC"
pub open spec fn madt_signature() -> Seq<u8> {
    seq![0x41, 0x50, 0x49, 0x43]
}

/// "FVM_MADT"
pub open spec fn madt_oem_table_id() -> Seq<u8> {
    seq![0x46, 0x56, 0x4D, 0x5F, 0x4D, 0x41, 0x44, 0x54]
}

/// Length of the MADT for `vcpu_num` processors: 44 header bytes, 8 per local
/// APIC and 12 for the IOAPIC.
pub open spec fn madt_len(vcpu_num: u8) -> nat {
    (44 + 8 * vcpu_num + 12) as nat
}

/// The 36-byte table header with a zero checksum byte.
pub open spec fn madt_header(vcpu_num: u8) -> Seq<u8> {
    madt_signature() + spec_u32_to_le_bytes(madt_len(vcpu_num) as u32) + seq![2u8, 0u8] + oem_id()
        + madt_oem_table_id() + spec_u32_to_le_bytes(1) + fvm_creator_id() + spec_u32_to_le_bytes(1)
}

/// Local APIC structure: type 0, length 8, processor UID and APIC ID `id`, enabled.
pub open spec fn local_apic_entry(id: u8) -> Seq<u8> {
    seq![0u8, 8u8, id, id] + spec_u32_to_le_bytes(1)
}

/// The local APIC structures of processors `0..n`, in order.
pub open spec fn local_apic_entries(n: nat) -> Seq<u8>
    decreases n,
{
    if n == 0 {
        Seq::empty()
    } else {
        local_apic_entries((n - 1) as nat) + local_apic_entry((n - 1) as u8)
    }
}

/// IOAPIC structure: type 1, length 12, ID 0, at 0xFEC00000, GSI base 0.
pub open spec fn ioapic_entry() -> Seq<u8> {
    seq![1u8, 12u8, 0u8, 0u8] + spec_u32_to_le_bytes(0xFEC00000) + spec_u32_to_le_bytes(0)
}

/// The MADT with a zero checksum byte: header, local APIC address 0xFEE00000,
/// flags 1 (PC-AT compatible), the local APICs, then the IOAPIC.
pub open spec fn madt_body(vcpu_num: u8) -> Seq<u8> {
    madt_header(vcpu_num) + spec_u32_to_le_bytes(0xFEE00000) + spec_u32_to_le_bytes(1)
        + local_apic_entries(vcpu_num as nat) + ioapic_entry()
}

proof fn lemma_le_len(v: u32)
    ensures
        spec_u32_to_le_bytes(v).len() == 4,
{
    vstd::bytes::lemma_auto_spec_u32_to_from_le_bytes();
}

proof fn lemma_entries_len(n: nat)
    ensures
        local_apic_entries(n).len() == 8 * n,
    decreases n,
{
    lemma_le_len(1);
    if n > 0 {
        lemma_entries_len((n - 1) as nat);
    }
}

/// The finished table: the body with its checksum byte filled in.
#[verifier::opaque]
pub open spec fn madt_image(vcpu_num: u8) -> Seq<u8> {
    madt_body(vcpu_num).update(9, acpi_checksum(madt_body(vcpu_num)))
}

/// The MADT for `vcpu_num` processors, placed at `MADT_ADDR`, with its checksum
/// filled in so that all bytes sum to zero. Its length is computed in a byte,
/// so at most 24 processors fit.
pub fn build_madt(vcpu_num: u8) -> (r: Binary)
    requires
        56 + 8 * vcpu_num <= 255,
    ensures
        r.offset == MADT_ADDR,
        r.data@ == madt_image(vcpu_num),
        r.data@.len() == madt_len(vcpu_num),
        byte_sum(r.data@) % 256 == 0,
{
    proof {
        reveal(madt_image);
    }
    let length: u8 = 44 + vcpu_num * 8 + 12;
    let mut madt: Vec<u8> = Vec::new();
    proof {
        lemma_le_len(1);
        lemma_le_len(length as u32);
        lemma_le_len(0xFEE00000);
        lemma_le_len(0xFEC00000);
        lemma_le_len(0);
    }
    // Header (36 bytes)
    madt.extend_from_slice(&[0x41, 0x50, 0x49, 0x43]);  // "APIC"
    madt.extend_from_slice(u32_to_le_bytes(length as u32).as_slice());  // Length
    madt.extend_from_slice(&[2, 0]);  // Revision (ACPI 3.0), checksum (calculated later)
    madt.extend_from_slice(&[0x46, 0x45, 0x52, 0x52, 0x55, 0x4D]);  // "FERRUM"
    madt.extend_from_slice(&[0x46, 0x56, 0x4D, 0x5F, 0x4D, 0x41, 0x44, 0x54]);  // "FVM_MADT"
    madt.extend_from_slice(u32_to_le_bytes(1).as_slice());  // OEM Revision
    madt.extend_from_slice(&[0x46, 0x56, 0x4D, 0x20]);  // "FVM "
    madt.extend_from_slice(u32_to_le_bytes(1).as_slice());  // Creator Revision
    // Local APIC address
    madt.extend_from_slice(u32_to_le_bytes(0xFEE00000).as_slice());
    // Flags
    madt.extend_from_slice(u32_to_le_bytes(1).as_slice());
    let ghost prefix = madt@;
    assert(prefix =~= madt_header(vcpu_num) + spec_u32_to_le_bytes(0xFEE00000) + spec_u32_to_le_bytes(1));
    // VCPU's
    let mut vcpu_id: u8 = 0;
    while vcpu_id < vcpu_num
        invariant
            vcpu_id <= vcpu_num,
            madt@ == prefix + local_apic_entries(vcpu_id as nat),
        decreases vcpu_num - vcpu_id,
    {
        madt.extend_from_slice(&[0, 8, vcpu_id, vcpu_id]);  // Type, length, ACPI processor UID, APIC ID
        madt.extend_from_slice(u32_to_le_bytes(1).as_slice());  // Flags
        vcpu_id = vcpu_id + 1;
        assert(madt@ =~= prefix + local_apic_entries(vcpu_id as nat));
    }
    // IOAPIC
    madt.extend_from_slice(&[1, 12, 0, 0]);  // Type, length, IOAPIC ID, reserved
    madt.extend_from_slice(u32_to_le_bytes(0xFEC00000).as_slice());  // IOAPIC address
    madt.extend_from_slice(u32_to_le_bytes(0).as_slice());  // GSI base
    assert(madt@ =~= madt_body(vcpu_num));
    proof {
        lemma_entries_len(vcpu_num as nat);
        assert(madt@[9] == 0);
        lemma_checksum_zero(madt@, 9);
    }
    let checksum = checksum_byte(madt.as_slice());
    madt.set(ACPI_CHECKSUM_OFFSET, checksum);
    Binary::new(madt, MADT_ADDR)
}

/// The MADT carries its own length, and entry `id` among the local APICs names
/// processor `id` as enabled.
pub proof fn lemma_madt_fields(vcpu_num: u8, id: u8)
    requires
        56 + 8 * vcpu_num <= 255,
        id < vcpu_num,
    ensures
        vstd::bytes::spec_u32_from_le_bytes(madt_image(vcpu_num).subrange(4, 8)) == madt_image(vcpu_num).len(),
        madt_image(vcpu_num).subrange(44 + 8 * id, 52 + 8 * id) == local_apic_entry(id),
{
    reveal(madt_image);
    vstd::bytes::lemma_auto_spec_u32_to_from_le_bytes();
    lemma_entries_len(vcpu_num as nat);
    let t = madt_image(vcpu_num);
    assert(t.subrange(4, 8) =~= spec_u32_to_le_bytes(madt_len(vcpu_num) as u32));
    lemma_entry_at(vcpu_num as nat, id as nat);
    let body = madt_body(vcpu_num);
    let prefix = madt_header(vcpu_num) + spec_u32_to_le_bytes(0xFEE00000) + spec_u32_to_le_bytes(1);
    assert(prefix.len() == 44);
    assert(body == prefix + local_apic_entries(vcpu_num as nat) + ioapic_entry());
    assert(t.subrange(44 + 8 * id, 52 + 8 * id) =~= local_apic_entries(vcpu_num as nat).subrange(8 * id, 8 * id + 8));
}

proof fn lemma_entry_at(n: nat, id: nat)
    requires
        id < n,
        n < 256,
    ensures
        local_apic_entries(n).subrange(8 * id as int, 8 * id as int + 8) == local_apic_entry(id as u8),
    decreases n,
{
    lemma_entries_len(n);
    lemma_le_len(1);
    let prev = local_apic_entries((n - 1) as nat);
    lemma_entries_len((n - 1) as nat);
    if id < n - 1 {
        lemma_entry_at((n - 1) as nat, id);
        assert(local_apic_entries(n).subrange(8 * id as int, 8 * id as int + 8) =~= prev.subrange(8 * id as int, 8 * id as int + 8));
    } else {
        assert(local_apic_entries(n).subrange(8 * id as int, 8 * id as int + 8) =~= local_apic_entry(id as u8));
    }
}

/// The MADT is signed "APIC", revision 2, as long as its length field says
/// (56 bytes and 8 per processor), puts the local APICs at 0xFEE00000 with the
/// PC-AT flag, lists processor `id` as a local APIC (type 0, length 8, UID
/// and APIC ID `id`, enabled), and ends with the IOAPIC (type 1, length 12,
/// ID 0) at 0xFEC00000 with GSI base 0.
pub proof fn lemma_madt_layout(vcpu_num: u8, id: u8)
    requires
        56 + 8 * vcpu_num <= 255,
    ensures
        ({
            let t = madt_image(vcpu_num);
            let io = 44 + 8 * vcpu_num;
            &&& t.len() == 56 + 8 * vcpu_num
            &&& t.subrange(0, 4) == seq![0x41u8, 0x50u8, 0x49u8, 0x43u8]
            &&& vstd::bytes::spec_u32_from_le_bytes(t.subrange(4, 8)) == 56 + 8 * vcpu_num
            &&& t[8] == 2
            &&& vstd::bytes::spec_u32_from_le_bytes(t.subrange(36, 40)) == 0xFEE00000
            &&& vstd::bytes::spec_u32_from_le_bytes(t.subrange(40, 44)) == 1
            &&& id < vcpu_num ==> {
                &&& t.subrange(44 + 8 * id, 48 + 8 * id) == seq![0u8, 8u8, id, id]
                &&& vstd::bytes::spec_u32_from_le_bytes(t.subrange(48 + 8 * id, 52 + 8 * id)) == 1
            }
            &&& t.subrange(io, io + 4) == seq![1u8, 12u8, 0u8, 0u8]
            &&& vstd::bytes::spec_u32_from_le_bytes(t.subrange(io + 4, io + 8)) == 0xFEC00000
            &&& vstd::bytes::spec_u32_from_le_bytes(t.subrange(io + 8, io + 12)) == 0
        }),
{
    reveal(madt_image);
    vstd::bytes::lemma_auto_spec_u32_to_from_le_bytes();
    lemma_entries_len(vcpu_num as nat);
    lemma_le_len(1);
    let t = madt_image(vcpu_num);
    let body = madt_body(vcpu_num);
    let io = 44 + 8 * vcpu_num;
    assert(t.subrange(0, 4) =~= seq![0x41u8, 0x50u8, 0x49u8, 0x43u8]);
    assert(t.subrange(4, 8) =~= spec_u32_to_le_bytes(madt_len(vcpu_num) as u32));
    assert(t.subrange(36, 40) =~= spec_u32_to_le_bytes(0xFEE00000));
    assert(t.subrange(40, 44) =~= spec_u32_to_le_bytes(1));
    if id < vcpu_num {
        lemma_madt_fields(vcpu_num, id);
        assert(t.subrange(44 + 8 * id, 48 + 8 * id) =~= t.subrange(44 + 8 * id, 52 + 8 * id).subrange(0, 4));
        assert(t.subrange(48 + 8 * id, 52 + 8 * id) =~= t.subrange(44 + 8 * id, 52 + 8 * id).subrange(4, 8));
        assert(local_apic_entry(id).subrange(0, 4) =~= seq![0u8, 8u8, id, id]);
        assert(local_apic_entry(id).subrange(4, 8) =~= spec_u32_to_le_bytes(1));
    }
    assert(t.subrange(io, io + 4) =~= seq![1u8, 12u8, 0u8, 0u8]);
    assert(t.subrange(io + 4, io + 8) =~= spec_u32_to_le_bytes(0xFEC00000));
    assert(t.subrange(io + 8, io + 12) =~= spec_u32_to_le_bytes(0));
}

} // verus!
