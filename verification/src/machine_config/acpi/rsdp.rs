//! The Root System Description Pointer (RSDP, ACPI 2.0+): where the guest finds the XSDT.
use vstd::prelude::*;
use vstd::bytes::{spec_u32_to_le_bytes, spec_u64_to_le_bytes, u32_to_le_bytes, u64_to_le_bytes};
use crate::bytes::{byte_sum, lemma_byte_sum_update, wrapping_byte_sum, zeros};
use crate::machine_config::acpi::fadt::oem_id;
use crate::machine_config::binary::Binary;

verus! {

/// Guest physical address the RSDP is placed at.
pub const RSDP_ADDR: u64 = 0xE0000;

/// "RSD PTR "
pub open spec fn rsdp_signature() -> Seq<u8> {
    seq![0x52, 0x53, 0x44, 0x20, 0x50, 0x54, 0x52, 0x20]
}

/// The 36-byte RSDP with both checksum bytes zero: signature, checksum, OEM
/// ID, revision 2, RSDT address 0, length 36, XSDT address, extended
/// checksum, three reserved bytes.
pub open spec fn rsdp_body(xsdt_addr: u64) -> Seq<u8> {
    rsdp_signature() + seq![0u8] + oem_id() + seq![0x02u8] + spec_u32_to_le_bytes(0)
        + spec_u32_to_le_bytes(36) + spec_u64_to_le_bytes(xsdt_addr) + zeros(4)
}

/// The byte that makes the `n` first bytes of `s` sum to zero modulo 256.
pub open spec fn prefix_checksum(s: Seq<u8>, n: int) -> u8 {
    ((256 - byte_sum(s.subrange(0, n)) % 256) % 256) as u8
}

/// The RSDP with its first checksum (over bytes 0..20) filled in.
pub open spec fn rsdp_first_pass(xsdt_addr: u64) -> Seq<u8> {
    rsdp_body(xsdt_addr).update(8, prefix_checksum(rsdp_body(xsdt_addr), 20))
}

/// The finished RSDP: then the extended checksum (over all 36 bytes) filled in.
#[verifier::opaque]
pub open spec fn rsdp_image(xsdt_addr: u64) -> Seq<u8> {
    rsdp_first_pass(xsdt_addr).update(32, prefix_checksum(rsdp_first_pass(xsdt_addr), 36))
}

proof fn lemma_prefix_checksum(s: Seq<u8>, n: int, k: int)
    requires
        0 <= k < n <= s.len(),
        s[k] == 0,
    ensures
        byte_sum(s.update(k, prefix_checksum(s, n)).subrange(0, n)) % 256 == 0,
{
    let p = s.subrange(0, n);
    assert(s.update(k, prefix_checksum(s, n)).subrange(0, n) =~= p.update(k, prefix_checksum(s, n)));
    lemma_byte_sum_update(p, k, prefix_checksum(s, n));
}

/// The RSDP pointing at the XSDT at `xsdt_addr`, placed at `RSDP_ADDR`. Bytes
/// 0..20 sum to zero (ACPI 1.0 checksum) and so do all 36 bytes (extended checksum).
pub fn build_rsdp(xsdt_addr: u64) -> (r: Binary)
    ensures
        r.offset == RSDP_ADDR,
        r.data@ == rsdp_image(xsdt_addr),
        r.data@.len() == 36,
        byte_sum(r.data@.subrange(0, 20)) % 256 == 0,
        byte_sum(r.data@) % 256 == 0,
{
    proof {
        reveal(rsdp_image);
    }
    proof {
        vstd::bytes::lemma_auto_spec_u32_to_from_le_bytes();
        vstd::bytes::lemma_auto_spec_u64_to_from_le_bytes();
    }
    let mut rsdp: Vec<u8> = Vec::new();
    rsdp.extend_from_slice(&[0x52, 0x53, 0x44, 0x20, 0x50, 0x54, 0x52, 0x20]);  // "RSD PTR "
    rsdp.extend_from_slice(&[0]);  // checksum
    rsdp.extend_from_slice(&[0x46, 0x45, 0x52, 0x52, 0x55, 0x4D]);  // "FERRUM"
    rsdp.extend_from_slice(&[0x02]);  // revision
    rsdp.extend_from_slice(u32_to_le_bytes(0).as_slice());  // RSDT address
    rsdp.extend_from_slice(u32_to_le_bytes(36).as_slice());  // length
    rsdp.extend_from_slice(u64_to_le_bytes(xsdt_addr).as_slice());  // XSDT address
    rsdp.extend_from_slice(&[0, 0, 0, 0]);  // extended checksum, reserved
    assert(rsdp@ =~= rsdp_body(xsdt_addr));
    let ghost body = rsdp@;
    let first = checksum(slice_prefix(rsdp.as_slice(), 20));
    rsdp.set(8, 0u8.wrapping_sub(first));
    assert(rsdp@ == rsdp_first_pass(xsdt_addr));
    let ghost pass = rsdp@;
    let ext = checksum(slice_prefix(rsdp.as_slice(), 36));
    rsdp.set(32, 0u8.wrapping_sub(ext));
    assert(rsdp@ == rsdp_image(xsdt_addr));
    proof {
        lemma_prefix_checksum(body, 20, 8);
        assert(rsdp@.subrange(0, 20) =~= pass.subrange(0, 20));
        assert(pass[32] == 0);
        lemma_prefix_checksum(pass, 36, 32);
        assert(rsdp@.subrange(0, 36) =~= rsdp@);
    }
    Binary::new(rsdp, RSDP_ADDR)
}

fn slice_prefix(data: &[u8], n: usize) -> (r: &[u8])
    requires
        n <= data@.len(),
    ensures
        r@ == data@.subrange(0, n as int),
{
    &data[0..n]
}

/// The sum of the bytes of `data`, modulo 256.
fn checksum(data: &[u8]) -> (r: u8)
    ensures
        r == byte_sum(data@) % 256,
{
    wrapping_byte_sum(data)
}

/// The RSDP is revision 2, 36 bytes long, and points at the XSDT.
pub proof fn lemma_rsdp_fields(xsdt_addr: u64)
    ensures
        rsdp_image(xsdt_addr).subrange(0, 8) == rsdp_signature(),
        rsdp_image(xsdt_addr)[15] == 2,
        vstd::bytes::spec_u32_from_le_bytes(rsdp_image(xsdt_addr).subrange(20, 24)) == rsdp_image(xsdt_addr).len(),
        vstd::bytes::spec_u64_from_le_bytes(rsdp_image(xsdt_addr).subrange(24, 32)) == xsdt_addr,
{
    reveal(rsdp_image);
    vstd::bytes::lemma_auto_spec_u32_to_from_le_bytes();
    vstd::bytes::lemma_auto_spec_u64_to_from_le_bytes();
    let t = rsdp_image(xsdt_addr);
    assert(t.subrange(0, 8) =~= rsdp_signature());
    assert(t.subrange(20, 24) =~= spec_u32_to_le_bytes(36));
    assert(t.subrange(24, 32) =~= spec_u64_to_le_bytes(xsdt_addr));
}

/// The RSDP is signed "RSD PTR ", names the OEM "FERRUM", is revision 2, has
/// no RSDT (address 0), is 36 bytes long as its length field says, and points
/// at the XSDT at `xsdt_addr`.
pub proof fn lemma_rsdp_layout(xsdt_addr: u64)
    ensures
        ({
            let t = rsdp_image(xsdt_addr);
            &&& t.len() == 36
            &&& t.subrange(0, 8) == seq![0x52u8, 0x53u8, 0x44u8, 0x20u8, 0x50u8, 0x54u8, 0x52u8, 0x20u8]
            &&& t.subrange(9, 15) == seq![0x46u8, 0x45u8, 0x52u8, 0x52u8, 0x55u8, 0x4Du8]
            &&& t[15] == 2
            &&& vstd::bytes::spec_u32_from_le_bytes(t.subrange(16, 20)) == 0
            &&& vstd::bytes::spec_u32_from_le_bytes(t.subrange(20, 24)) == 36
            &&& vstd::bytes::spec_u64_from_le_bytes(t.subrange(24, 32)) == xsdt_addr
        }),
{
    reveal(rsdp_image);
    vstd::bytes::lemma_auto_spec_u32_to_from_le_bytes();
    vstd::bytes::lemma_auto_spec_u64_to_from_le_bytes();
    let t = rsdp_image(xsdt_addr);
    assert(t.subrange(0, 8) =~= seq![0x52u8, 0x53u8, 0x44u8, 0x20u8, 0x50u8, 0x54u8, 0x52u8, 0x20u8]);
    assert(t.subrange(9, 15) =~= seq![0x46u8, 0x45u8, 0x52u8, 0x52u8, 0x55u8, 0x4Du8]);
    assert(t.subrange(16, 20) =~= spec_u32_to_le_bytes(0));
    assert(t.subrange(20, 24) =~= spec_u32_to_le_bytes(36));
    assert(t.subrange(24, 32) =~= spec_u64_to_le_bytes(xsdt_addr));
}

} // verus!
