//! The Extended System Description Table (XSDT): 64-bit pointers to the other tables.
use vstd::prelude::*;
use vstd::bytes::{spec_u32_to_le_bytes, spec_u64_to_le_bytes, u32_to_le_bytes, u64_to_le_bytes};
use crate::bytes::{acpi_checksum, byte_sum, checksum_byte, lemma_checksum_zero};
use crate::machine_config::acpi::fadt::{oem_id, ACPI_CHECKSUM_OFFSET};
use crate::machine_config::binary::Binary;

verus! {

/// Guest physical address the XSDT is placed at.
pub const XSDT_ADDR: u64 = 0xE00E0;

/// "XSDT"
pub open spec fn xsdt_signature() -> Seq<u8> {
    seq![0x58, 0x53, 0x44, 0x54]
}

/// "FERRUM  "
pub open spec fn xsdt_oem_table_id() -> Seq<u8> {
    seq![0x46, 0x45, 0x52, 0x52, 0x55, 0x4D, 0x20, 0x20]
}

/// "FERR"
pub open spec fn xsdt_creator_id() -> Seq<u8> {
    seq![0x46, 0x45, 0x52, 0x52]
}

/// Length of an XSDT with `n` entries.
pub open spec fn xsdt_len(n: nat) -> nat {
    36 + 8 * n
}

/// The 36-byte header with a zero checksum byte; the length field holds the low
/// 32 bits of the length.
pub open spec fn xsdt_header(n: nat) -> Seq<u8> {
    xsdt_signature() + spec_u32_to_le_bytes(xsdt_len(n) as u32) + seq![1u8, 0u8] + oem_id()
        + xsdt_oem_table_id() + spec_u32_to_le_bytes(1) + xsdt_creator_id() + spec_u32_to_le_bytes(1)
}

/// The table addresses, each as 8 little-endian bytes, in order.
pub open spec fn xsdt_entries(addrs: Seq<u64>) -> Seq<u8>
    decreases addrs.len(),
{
    if addrs.len() == 0 {
        Seq::empty()
    } else {
        xsdt_entries(addrs.drop_last()) + spec_u64_to_le_bytes(addrs.last())
    }
}

/// The XSDT with a zero checksum byte.
pub open spec fn xsdt_body(addrs: Seq<u64>) -> Seq<u8> {
    xsdt_header(addrs.len()) + xsdt_entries(addrs)
}

proof fn lemma_entries_len(addrs: Seq<u64>)
    ensures
        xsdt_entries(addrs).len() == 8 * addrs.len(),
    decreases addrs.len(),
{
    vstd::bytes::lemma_auto_spec_u64_to_from_le_bytes();
    if addrs.len() > 0 {
        lemma_entries_len(addrs.drop_last());
    }
}

/// The finished table: the body with its checksum byte filled in.
#[verifier::opaque]
pub open spec fn xsdt_image(addrs: Seq<u64>) -> Seq<u8> {
    xsdt_body(addrs).update(9, acpi_checksum(xsdt_body(addrs)))
}

/// The XSDT pointing at the tables at `table_addrs`, placed at `XSDT_ADDR`,
/// with its checksum filled in so that all bytes sum to zero.
pub fn build_xsdt(table_addrs: &[u64]) -> (r: Binary)
    requires
        36 + 8 * table_addrs@.len() <= usize::MAX,
    ensures
        r.offset == XSDT_ADDR,
        r.data@ == xsdt_image(table_addrs@),
        r.data@.len() == xsdt_len(table_addrs@.len()),
        byte_sum(r.data@) % 256 == 0,
{
    proof {
        reveal(xsdt_image);
    }
    let total_len = 36 + table_addrs.len() * 8;
    proof {
        vstd::bytes::lemma_auto_spec_u32_to_from_le_bytes();
    }
    let mut xsdt: Vec<u8> = Vec::new();
    xsdt.extend_from_slice(&[0x58, 0x53, 0x44, 0x54]);  // "XSDT"
    xsdt.extend_from_slice(u32_to_le_bytes(total_len as u32).as_slice());
    xsdt.extend_from_slice(&[0x01, 0]);  // Revision, checksum (calculated later)
    xsdt.extend_from_slice(&[0x46, 0x45, 0x52, 0x52, 0x55, 0x4D]);  // "FERRUM"
    xsdt.extend_from_slice(&[0x46, 0x45, 0x52, 0x52, 0x55, 0x4D, 0x20, 0x20]);  // "FERRUM  "
    xsdt.extend_from_slice(u32_to_le_bytes(1).as_slice());
    xsdt.extend_from_slice(&[0x46, 0x45, 0x52, 0x52]);  // "FERR"
    xsdt.extend_from_slice(u32_to_le_bytes(1).as_slice());
    let ghost header = xsdt@;
    assert(header =~= xsdt_header(table_addrs@.len()));
    let mut i: usize = 0;
    while i < table_addrs.len()
        invariant
            i <= table_addrs@.len(),
            xsdt@ == header + xsdt_entries(table_addrs@.subrange(0, i as int)),
        decreases table_addrs@.len() - i,
    {
        xsdt.extend_from_slice(u64_to_le_bytes(table_addrs[i]).as_slice());
        i = i + 1;
        assert(table_addrs@.subrange(0, i as int).drop_last() =~= table_addrs@.subrange(0, i - 1));
        assert(xsdt@ =~= header + xsdt_entries(table_addrs@.subrange(0, i as int)));
    }
    assert(table_addrs@.subrange(0, table_addrs@.len() as int) =~= table_addrs@);
    proof {
        lemma_entries_len(table_addrs@);
        assert(xsdt@[9] == 0);
        lemma_checksum_zero(xsdt@, 9);
    }
    xsdt.set(ACPI_CHECKSUM_OFFSET, checksum(xsdt.as_slice()));
    Binary::new(xsdt, XSDT_ADDR)
}

/// Minus the sum of the bytes of `data`, modulo 256.
fn checksum(data: &[u8]) -> (r: u8)
    ensures
        r == acpi_checksum(data@),
{
    checksum_byte(data)
}

/// The XSDT carries its own length (when it fits in 32 bits) and entry `i`
/// points at the `i`-th table address it was given.
pub proof fn lemma_xsdt_fields(addrs: Seq<u64>, i: int)
    requires
        0 <= i < addrs.len(),
    ensures
        xsdt_len(addrs.len()) <= u32::MAX ==> vstd::bytes::spec_u32_from_le_bytes(
            xsdt_image(addrs).subrange(4, 8),
        ) == xsdt_image(addrs).len(),
        vstd::bytes::spec_u64_from_le_bytes(xsdt_image(addrs).subrange(36 + 8 * i, 44 + 8 * i)) == addrs[i],
{
    reveal(xsdt_image);
    vstd::bytes::lemma_auto_spec_u32_to_from_le_bytes();
    vstd::bytes::lemma_auto_spec_u64_to_from_le_bytes();
    lemma_entries_len(addrs);
    let t = xsdt_image(addrs);
    assert(t.subrange(4, 8) =~= spec_u32_to_le_bytes(xsdt_len(addrs.len()) as u32));
    lemma_xsdt_entry_at(addrs, i);
    assert(xsdt_header(addrs.len()).len() == 36);
    assert(t.subrange(36 + 8 * i, 44 + 8 * i) =~= xsdt_entries(addrs).subrange(8 * i, 8 * i + 8));
}

proof fn lemma_xsdt_entry_at(addrs: Seq<u64>, i: int)
    requires
        0 <= i < addrs.len(),
    ensures
        xsdt_entries(addrs).subrange(8 * i, 8 * i + 8) == spec_u64_to_le_bytes(addrs[i]),
    decreases addrs.len(),
{
    vstd::bytes::lemma_auto_spec_u64_to_from_le_bytes();
    let init = addrs.drop_last();
    lemma_entries_len(init);
    if i < addrs.len() - 1 {
        lemma_xsdt_entry_at(init, i);
        assert(xsdt_entries(addrs).subrange(8 * i, 8 * i + 8) =~= xsdt_entries(init).subrange(8 * i, 8 * i + 8));
    } else {
        assert(xsdt_entries(addrs).subrange(8 * i, 8 * i + 8) =~= spec_u64_to_le_bytes(addrs[i]));
    }
}

/// The XSDT is signed "XSDT", revision 1, names the OEM "FERRUM" and the
/// table "FERRUM  ", is 36 bytes and 8 per table long, and holds the table
/// addresses in the order given.
pub proof fn lemma_xsdt_layout(addrs: Seq<u64>)
    ensures
        ({
            let t = xsdt_image(addrs);
            &&& t.len() == 36 + 8 * addrs.len()
            &&& t.subrange(0, 4) == seq![0x58u8, 0x53u8, 0x44u8, 0x54u8]
            &&& t[8] == 1
            &&& t.subrange(10, 16) == seq![0x46u8, 0x45u8, 0x52u8, 0x52u8, 0x55u8, 0x4Du8]
            &&& t.subrange(16, 24) == seq![0x46u8, 0x45u8, 0x52u8, 0x52u8, 0x55u8, 0x4Du8, 0x20u8, 0x20u8]
        }),
{
    reveal(xsdt_image);
    vstd::bytes::lemma_auto_spec_u32_to_from_le_bytes();
    lemma_entries_len(addrs);
    let t = xsdt_image(addrs);
    assert(t.subrange(0, 4) =~= seq![0x58u8, 0x53u8, 0x44u8, 0x54u8]);
    assert(t.subrange(10, 16) =~= seq![0x46u8, 0x45u8, 0x52u8, 0x52u8, 0x55u8, 0x4Du8]);
    assert(t.subrange(16, 24) =~= seq![0x46u8, 0x45u8, 0x52u8, 0x52u8, 0x55u8, 0x4Du8, 0x20u8, 0x20u8]);
}

} // verus!
