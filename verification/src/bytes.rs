//! Byte-buffer helpers shared by the firmware tables: placing fields and the
//! ACPI checksum (all bytes of a table sum to zero, modulo 256).
use vstd::prelude::*;
use crate::memory_region::splice;

verus! {

/// The sum of all bytes of `s`.
pub open spec fn byte_sum(s: Seq<u8>) -> nat
    decreases s.len(),
{
    if s.len() == 0 {
        0
    } else {
        byte_sum(s.drop_last()) + (s.last() as nat)
    }
}

/// The byte that, placed in a zero byte of `s`, makes all bytes sum to zero modulo 256.
pub open spec fn acpi_checksum(s: Seq<u8>) -> u8 {
    ((256 - byte_sum(s) % 256) % 256) as u8
}

/// `n` zero bytes.
pub open spec fn zeros(n: nat) -> Seq<u8> {
    Seq::new(n, |i: int| 0u8)
}

/// The sum of two byte strings put together is the sum of their sums.
pub proof fn lemma_byte_sum_append(a: Seq<u8>, b: Seq<u8>)
    ensures
        byte_sum(a + b) == byte_sum(a) + byte_sum(b),
    decreases b.len(),
{
    if b.len() == 0 {
        assert(a + b =~= a);
    } else {
        assert((a + b).drop_last() =~= a + b.drop_last());
        lemma_byte_sum_append(a, b.drop_last());
    }
}

/// Changing one byte changes the sum by the difference.
pub proof fn lemma_byte_sum_update(s: Seq<u8>, k: int, v: u8)
    requires
        0 <= k < s.len(),
    ensures
        byte_sum(s.update(k, v)) + s[k] == byte_sum(s) + v,
{
    let pre = s.subrange(0, k);
    let post = s.subrange(k + 1, s.len() as int);
    assert(s =~= pre + seq![s[k]] + post);
    assert(s.update(k, v) =~= pre + seq![v] + post);
    lemma_byte_sum_append(pre + seq![s[k]], post);
    lemma_byte_sum_append(pre, seq![s[k]]);
    lemma_byte_sum_append(pre + seq![v], post);
    lemma_byte_sum_append(pre, seq![v]);
    assert(seq![s[k]].drop_last() =~= Seq::<u8>::empty());
    assert(seq![v].drop_last() =~= Seq::<u8>::empty());
}

/// Placing the checksum byte in a zero byte makes the whole sum vanish modulo 256.
pub proof fn lemma_checksum_zero(s: Seq<u8>, k: int)
    requires
        0 <= k < s.len(),
        s[k] == 0,
    ensures
        byte_sum(s.update(k, acpi_checksum(s))) % 256 == 0,
{
    lemma_byte_sum_update(s, k, acpi_checksum(s));
}

/// Zero bytes sum to zero.
pub proof fn lemma_zeros_sum(n: nat)
    ensures
        byte_sum(zeros(n)) == 0,
    decreases n,
{
    if n > 0 {
        assert(zeros(n).drop_last() =~= zeros((n - 1) as nat));
        lemma_zeros_sum((n - 1) as nat);
    }
}

/// The sum of the bytes of `data`, wrapping modulo 256.
pub fn wrapping_byte_sum(data: &[u8]) -> (r: u8)
    ensures
        r == byte_sum(data@) % 256,
{
    let mut sum: u8 = 0;
    let mut i: usize = 0;
    while i < data.len()
        invariant
            i <= data@.len(),
            sum == byte_sum(data@.subrange(0, i as int)) % 256,
        decreases data@.len() - i,
    {
        assert(data@.subrange(0, i + 1).drop_last() =~= data@.subrange(0, i as int));
        sum = sum.wrapping_add(data[i]);
        i = i + 1;
    }
    assert(data@.subrange(0, data@.len() as int) =~= data@);
    sum
}

/// The checksum byte for `data`: minus the sum of its bytes, modulo 256.
pub fn checksum_byte(data: &[u8]) -> (r: u8)
    ensures
        r == acpi_checksum(data@),
{
    let sum = wrapping_byte_sum(data);
    0u8.wrapping_sub(sum)
}

/// Copies `data` into `buf` at `offset`.
pub fn put_bytes(buf: &mut Vec<u8>, offset: usize, data: &[u8])
    requires
        offset + data@.len() <= old(buf)@.len(),
    ensures
        final(buf)@ == splice(old(buf)@, offset as int, data@),
{
    let ghost before = buf@;
    let n = buf.len();
    let mut i: usize = 0;
    while i < data.len()
        invariant
            i <= data@.len(),
            n == buf@.len(),
            offset + data@.len() <= before.len(),
            buf@ == splice(before, offset as int, data@.subrange(0, i as int)),
        decreases data@.len() - i,
    {
        buf.set(offset + i, data[i]);
        i = i + 1;
        assert(buf@ =~= splice(before, offset as int, data@.subrange(0, i as int)));
    }
    assert(data@.subrange(0, data@.len() as int) =~= data@);
}

} // verus!
