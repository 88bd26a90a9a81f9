//! Fletcher 16 checksum, as used on the metadata block and on every data frame.

use vstd::arithmetic::div_mod::{lemma_add_mod_noop, lemma_mul_mod_noop_right, lemma_small_mod};
use vstd::prelude::*;

verus! {

/// The two running sums of Fletcher 16 after `data` has been consumed:
/// `sum0` is reduced modulo 255 after each byte, `sum1` accumulates `sum0`
/// after each byte, also modulo 255.
pub open spec fn fletcher_sums(data: Seq<u8>) -> (int, int)
    decreases data.len(),
{
    if data.len() == 0 {
        (0, 0)
    } else {
        let prev = fletcher_sums(data.drop_last());
        let sum0 = (prev.0 + data.last()) % 255;
        (sum0, (prev.1 + sum0) % 255)
    }
}

/// The Fletcher 16 checksum of `data`: `sum1` in the high byte, `sum0` in the low byte.
pub open spec fn spec_fletcher16(data: Seq<u8>) -> int {
    fletcher_sums(data).1 * 256 + fletcher_sums(data).0
}

/// Sum of all bytes of `data`.
pub open spec fn byte_sum(data: Seq<u8>) -> int
    decreases data.len(),
{
    if data.len() == 0 {
        0
    } else {
        byte_sum(data.drop_last()) + data.last()
    }
}

/// Sum, over every non-empty prefix of `data`, of that prefix's byte sum.
pub open spec fn prefix_sum_total(data: Seq<u8>) -> int
    decreases data.len(),
{
    if data.len() == 0 {
        0
    } else {
        prefix_sum_total(data.drop_last()) + byte_sum(data)
    }
}

/// Reducing modulo 255 after every byte gives the same checksum as reducing
/// once at the end: the low byte of Fletcher 16 is the byte sum modulo 255, the
/// high byte is the sum of the prefix sums modulo 255, and neither byte is ever 0xFF.
pub proof fn lemma_fletcher16_closed_form(data: Seq<u8>)
    ensures
        fletcher_sums(data).0 == byte_sum(data) % 255,
        fletcher_sums(data).1 == prefix_sum_total(data) % 255,
        spec_fletcher16(data) == (prefix_sum_total(data) % 255) * 256 + byte_sum(data) % 255,
        spec_fletcher16(data) % 256 == fletcher_sums(data).0,
        spec_fletcher16(data) / 256 == fletcher_sums(data).1,
        spec_fletcher16(data) % 256 < 255,
        spec_fletcher16(data) / 256 < 255,
    decreases data.len(),
{
    if data.len() > 0 {
        let prefix = data.drop_last();
        lemma_fletcher16_closed_form(prefix);
        lemma_add_mod_noop(byte_sum(prefix), data.last() as int, 255);
        lemma_add_mod_noop(prefix_sum_total(prefix), byte_sum(data), 255);
    }
    let s0 = fletcher_sums(data).0;
    let s1 = fletcher_sums(data).1;
    assert((s1 * 256 + s0) % 256 == s0 && (s1 * 256 + s0) / 256 == s1) by (nonlinear_arith)
        requires
            0 <= s0 < 255,
            0 <= s1 < 255,
    ;
}

proof fn lemma_sums_concat(a: Seq<u8>, b: Seq<u8>)
    ensures
        byte_sum(a + b) == byte_sum(a) + byte_sum(b),
        prefix_sum_total(a + b) == prefix_sum_total(a) + b.len() * byte_sum(a) + prefix_sum_total(b),
    decreases b.len(),
{
    if b.len() == 0 {
        assert(a + b =~= a);
    } else {
        let b1 = b.drop_last();
        lemma_sums_concat(a, b1);
        assert((a + b).drop_last() =~= a + b1);
        assert((a + b).last() == b.last());
        let n = b.len() as int;
        let sa = byte_sum(a);
        assert((n - 1) * sa + sa == n * sa) by (nonlinear_arith);
    }
}

/// The checksum of a concatenation follows from the checksums of the parts:
/// with `s0`, `s1` the low and high bytes, `s0(a + b) = (s0(a) + s0(b)) mod 255`
/// and `s1(a + b) = (s1(a) + |b| * s0(a) + s1(b)) mod 255`.
pub proof fn lemma_fletcher16_concat(a: Seq<u8>, b: Seq<u8>)
    ensures
        spec_fletcher16(a + b) % 256 == (spec_fletcher16(a) % 256 + spec_fletcher16(b) % 256) % 255,
        spec_fletcher16(a + b) / 256 == (spec_fletcher16(a) / 256 + (b.len() * (spec_fletcher16(a)
            % 256)) % 255 + spec_fletcher16(b) / 256) % 255,
{
    lemma_fletcher16_closed_form(a);
    lemma_fletcher16_closed_form(b);
    lemma_fletcher16_closed_form(a + b);
    lemma_sums_concat(a, b);
    let sa = byte_sum(a);
    let sb = byte_sum(b);
    let pa = prefix_sum_total(a);
    let pb = prefix_sum_total(b);
    let n = b.len() as int;
    lemma_add_mod_noop(sa, sb, 255);
    lemma_mul_mod_noop_right(n, sa, 255);
    lemma_add_mod_noop(pa, n * sa, 255);
    lemma_add_mod_noop(pa + n * sa, pb, 255);
    lemma_small_mod(((n * sa) % 255) as nat, 255);
    lemma_add_mod_noop(pa % 255 + (n * sa) % 255, pb, 255);
    lemma_add_mod_noop(pa % 255, (n * sa) % 255, 255);
    lemma_small_mod((pa % 255) as nat, 255);
}

/// Compute the Fletcher 16 checksum of `data`.
pub fn fletcher16(data: &[u8]) -> (r: u16)
    ensures
        r == spec_fletcher16(data@),
{
    let mut sum0: u16 = 0;
    let mut sum1: u16 = 0;
    let n = data.len();
    let mut i: usize = 0;
    while i < n
        invariant
            n == data@.len(),
            i <= n,
            sum0 < 255,
            sum1 < 255,
            (sum0 as int, sum1 as int) == fletcher_sums(data@.subrange(0, i as int)),
        decreases n - i,
    {
        let byte = data[i];
        sum0 = (sum0 + byte as u16) % 255;
        sum1 = (sum1 + sum0) % 255;
        assert(data@.subrange(0, i + 1).drop_last() =~= data@.subrange(0, i as int));
        i = i + 1;
    }
    assert(data@.subrange(0, n as int) =~= data@);
    let r = (sum1 << 8) | sum0;
    assert((sum1 << 8) | sum0 == sum1 * 256 + sum0) by (bit_vector)
        requires
            sum0 < 255,
            sum1 < 255,
    ;
    r
}

} // verus!
