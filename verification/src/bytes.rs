//! Big-endian byte strings and the numbers they denote.

use vstd::prelude::*;

verus! {

/// 256 to the power `k`: the number of byte strings of length `k`.
pub open spec fn radix_pow(k: nat) -> nat
    decreases k,
{
    if k == 0 {
        1
    } else {
        256 * radix_pow((k - 1) as nat)
    }
}

/// The number that `bytes` denotes, most significant byte first.
pub open spec fn be_value(bytes: Seq<u8>) -> nat
    decreases bytes.len(),
{
    if bytes.len() == 0 {
        0
    } else {
        be_value(bytes.drop_last()) * 256 + bytes.last() as nat
    }
}

/// The `len` low-order bytes of `n`, most significant byte first.
pub open spec fn be_bytes(n: nat, len: nat) -> Seq<u8>
    decreases len,
{
    if len == 0 {
        Seq::empty()
    } else {
        be_bytes(n / 256, (len - 1) as nat).push((n % 256) as u8)
    }
}

/// The powers of 256 that the limbs of a word stand at.
pub proof fn lemma_radix_pow_values()
    ensures
        radix_pow(0) == 1,
        radix_pow(1) == 0x100,
        radix_pow(4) == 0x1_0000_0000,
        radix_pow(8) == 0x1_0000_0000_0000_0000,
        radix_pow(12) == 0x1_0000_0000_0000_0000_0000_0000,
{
    reveal_with_fuel(radix_pow, 13);
}

/// Exponents add where powers multiply.
pub proof fn lemma_radix_pow_adds(j: nat, k: nat)
    ensures
        radix_pow(j + k) == radix_pow(j) * radix_pow(k),
    decreases k,
{
    if k == 0 {
        assert(radix_pow(j) * 1 == radix_pow(j)) by (nonlinear_arith);
    } else {
        lemma_radix_pow_adds(j, (k - 1) as nat);
        let p = radix_pow(j);
        let q = radix_pow((k - 1) as nat);
        assert(256 * (p * q) == p * (256 * q)) by (nonlinear_arith);
        assert(radix_pow(j + k) == 256 * radix_pow((j + k - 1) as nat));
    }
}

/// The encoding in `len` bytes is `len` bytes long.
pub proof fn lemma_be_bytes_len(n: nat, len: nat)
    ensures
        be_bytes(n, len).len() == len,
    decreases len,
{
    if len > 0 {
        lemma_be_bytes_len(n / 256, (len - 1) as nat);
    }
}

/// A byte string denotes a number below `256^len`.
pub proof fn lemma_be_value_bound(bytes: Seq<u8>)
    ensures
        be_value(bytes) < radix_pow(bytes.len()),
    decreases bytes.len(),
{
    if bytes.len() > 0 {
        lemma_be_value_bound(bytes.drop_last());
    }
}

/// Encoding the number that a byte string denotes gives the string back.
pub proof fn lemma_be_bytes_of_value(bytes: Seq<u8>)
    ensures
        be_bytes(be_value(bytes), bytes.len()) == bytes,
    decreases bytes.len(),
{
    if bytes.len() > 0 {
        lemma_be_bytes_of_value(bytes.drop_last());
        assert(bytes.drop_last().push(bytes.last()) =~= bytes);
    }
}

/// Decoding the `len`-byte encoding of a number that fits gives the number back.
pub proof fn lemma_be_value_of_bytes(n: nat, len: nat)
    requires
        n < radix_pow(len),
    ensures
        be_value(be_bytes(n, len)) == n,
    decreases len,
{
    if len > 0 {
        lemma_be_value_of_bytes(n / 256, (len - 1) as nat);
        let s = be_bytes(n, len);
        assert(s.drop_last() =~= be_bytes(n / 256, (len - 1) as nat));
    }
}

/// The value of a concatenation: the left part is shifted by the length of the right part.
pub proof fn lemma_be_value_concat(a: Seq<u8>, b: Seq<u8>)
    ensures
        be_value(a + b) == be_value(a) * radix_pow(b.len()) + be_value(b),
    decreases b.len(),
{
    if b.len() == 0 {
        assert(a + b =~= a);
        assert(be_value(a) * 1 == be_value(a)) by (nonlinear_arith);
    } else {
        lemma_be_value_concat(a, b.drop_last());
        assert((a + b).drop_last() =~= a + b.drop_last());
        let x = be_value(a);
        let p = radix_pow(b.drop_last().len());
        assert(x * p * 256 == x * (256 * p)) by (nonlinear_arith);
    }
}

/// The encoding of `high * 256^k + low` is the encoding of `high` followed by
/// the `k`-byte encoding of `low`.
pub proof fn lemma_be_bytes_concat(high: nat, j: nat, low: nat, k: nat)
    requires
        low < radix_pow(k),
    ensures
        be_bytes(high * radix_pow(k) + low, j + k) == be_bytes(high, j) + be_bytes(low, k),
    decreases k,
{
    if k == 0 {
        assert(high * 1 == high) by (nonlinear_arith);
        assert(be_bytes(high, j) + be_bytes(low, 0) =~= be_bytes(high, j));
    } else {
        let p = radix_pow((k - 1) as nat);
        let n = high * radix_pow(k) + low;
        assert(high * (256 * p) == 256 * (high * p)) by (nonlinear_arith);
        assert(n / 256 == high * p + low / 256);
        assert(n % 256 == low % 256);
        lemma_be_bytes_concat(high, j, low / 256, (k - 1) as nat);
        assert(be_bytes(n, j + k) == be_bytes(n / 256, (j + k - 1) as nat).push((n % 256) as u8));
        assert((be_bytes(high, j) + be_bytes(low / 256, (k - 1) as nat)).push((low % 256) as u8)
            =~= be_bytes(high, j) + be_bytes(low, k));
    }
}

/// The eight bytes of `x`, most significant first.
pub open spec fn limb_bytes(x: u64) -> Seq<u8> {
    seq![
        (x / 0x100_0000_0000_0000) as u8,
        (x / 0x1_0000_0000_0000 % 256) as u8,
        (x / 0x100_0000_0000 % 256) as u8,
        (x / 0x1_0000_0000 % 256) as u8,
        (x / 0x100_0000 % 256) as u8,
        (x / 0x1_0000 % 256) as u8,
        (x / 0x100 % 256) as u8,
        (x % 256) as u8,
    ]
}

/// [`limb_bytes`] is the 8-byte encoding.
pub proof fn lemma_limb_bytes(x: u64)
    ensures
        limb_bytes(x) == be_bytes(x as nat, 8),
{
    let n0 = x as nat;
    let n1 = n0 / 256;
    let n2 = n1 / 256;
    let n3 = n2 / 256;
    let n4 = n3 / 256;
    let n5 = n4 / 256;
    let n6 = n5 / 256;
    let n7 = n6 / 256;
    let e0 = be_bytes(n7 / 256, 0);
    let e1 = be_bytes(n7, 1);
    let e2 = be_bytes(n6, 2);
    let e3 = be_bytes(n5, 3);
    let e4 = be_bytes(n4, 4);
    let e5 = be_bytes(n3, 5);
    let e6 = be_bytes(n2, 6);
    let e7 = be_bytes(n1, 7);
    let e8 = be_bytes(n0, 8);
    assert(e0.len() == 0);
    assert(e1 == e0.push((n7 % 256) as u8));
    assert(e2 == e1.push((n6 % 256) as u8));
    assert(e3 == e2.push((n5 % 256) as u8));
    assert(e4 == e3.push((n4 % 256) as u8));
    assert(e5 == e4.push((n3 % 256) as u8));
    assert(e6 == e5.push((n2 % 256) as u8));
    assert(e7 == e6.push((n1 % 256) as u8));
    assert(e8 == e7.push((n0 % 256) as u8));
    assert(n1 == x / 0x100);
    assert(n2 == x / 0x1_0000);
    assert(n3 == x / 0x100_0000);
    assert(n4 == x / 0x1_0000_0000);
    assert(n5 == x / 0x100_0000_0000);
    assert(n6 == x / 0x1_0000_0000_0000);
    assert(n7 == x / 0x100_0000_0000_0000);
    assert(n7 % 256 == n7);
    assert(limb_bytes(x) =~= e8);
}

/// Appends the eight bytes of `x`, most significant first.
pub(crate) fn push_limb(out: &mut Vec<u8>, x: u64)
    ensures
        final(out)@ == old(out)@ + be_bytes(x as nat, 8),
{
    proof {
        lemma_limb_bytes(x);
    }
    out.push((x / 0x100_0000_0000_0000) as u8);
    out.push((x / 0x1_0000_0000_0000 % 256) as u8);
    out.push((x / 0x100_0000_0000 % 256) as u8);
    out.push((x / 0x1_0000_0000 % 256) as u8);
    out.push((x / 0x100_0000 % 256) as u8);
    out.push((x / 0x1_0000 % 256) as u8);
    out.push((x / 0x100 % 256) as u8);
    out.push((x % 256) as u8);
    assert(out@ =~= old(out)@ + limb_bytes(x));
}

/// The number that the eight bytes from `start` on denote.
pub(crate) fn read_limb(bytes: &[u8], start: usize) -> (r: u64)
    requires
        start + 8 <= bytes.len(),
    ensures
        r as nat == be_value(bytes@.subrange(start as int, start + 8)),
{
    let b0: u64 = bytes[start] as u64;
    let b1: u64 = bytes[start + 1] as u64;
    let b2: u64 = bytes[start + 2] as u64;
    let b3: u64 = bytes[start + 3] as u64;
    let b4: u64 = bytes[start + 4] as u64;
    let b5: u64 = bytes[start + 5] as u64;
    let b6: u64 = bytes[start + 6] as u64;
    let b7: u64 = bytes[start + 7] as u64;
    proof {
        let s = bytes@.subrange(start as int, start + 8);
        reveal_with_fuel(be_value, 9);
        let s7 = s.drop_last();
        let s6 = s7.drop_last();
        let s5 = s6.drop_last();
        let s4 = s5.drop_last();
        let s3 = s4.drop_last();
        let s2 = s3.drop_last();
        let s1 = s2.drop_last();
        assert(s.last() == b7 && s7.last() == b6 && s6.last() == b5 && s5.last() == b4);
        assert(s4.last() == b3 && s3.last() == b2 && s2.last() == b1 && s1.last() == b0);
        assert(s1.drop_last().len() == 0);
    }
    ((((((b0 * 256 + b1) * 256 + b2) * 256 + b3) * 256 + b4) * 256 + b5) * 256 + b6) * 256 + b7
}

/// The four bytes of `x`, most significant first.
pub open spec fn half_limb_bytes(x: u32) -> Seq<u8> {
    seq![(x / 0x100_0000) as u8, (x / 0x1_0000 % 256) as u8, (x / 0x100 % 256) as u8, (x % 256) as u8]
}

/// [`half_limb_bytes`] is the 4-byte encoding.
pub proof fn lemma_half_limb_bytes(x: u32)
    ensures
        half_limb_bytes(x) == be_bytes(x as nat, 4),
{
    let n0 = x as nat;
    let n1 = n0 / 256;
    let n2 = n1 / 256;
    let n3 = n2 / 256;
    let e0 = be_bytes(n3 / 256, 0);
    let e1 = be_bytes(n3, 1);
    let e2 = be_bytes(n2, 2);
    let e3 = be_bytes(n1, 3);
    let e4 = be_bytes(n0, 4);
    assert(e0.len() == 0);
    assert(e1 == e0.push((n3 % 256) as u8));
    assert(e2 == e1.push((n2 % 256) as u8));
    assert(e3 == e2.push((n1 % 256) as u8));
    assert(e4 == e3.push((n0 % 256) as u8));
    assert(n1 == x / 0x100);
    assert(n2 == x / 0x1_0000);
    assert(n3 == x / 0x100_0000);
    assert(n3 % 256 == n3);
    assert(half_limb_bytes(x) =~= e4);
}

/// Appends the four bytes of `x`, most significant first.
pub(crate) fn push_half_limb(out: &mut Vec<u8>, x: u32)
    ensures
        final(out)@ == old(out)@ + be_bytes(x as nat, 4),
{
    proof {
        lemma_half_limb_bytes(x);
    }
    out.push((x / 0x100_0000) as u8);
    out.push((x / 0x1_0000 % 256) as u8);
    out.push((x / 0x100 % 256) as u8);
    out.push((x % 256) as u8);
    assert(out@ =~= old(out)@ + half_limb_bytes(x));
}

/// The number that the four bytes from `start` on denote.
pub(crate) fn read_half_limb(bytes: &[u8], start: usize) -> (r: u32)
    requires
        start + 4 <= bytes.len(),
    ensures
        r as nat == be_value(bytes@.subrange(start as int, start + 4)),
{
    let b0: u32 = bytes[start] as u32;
    let b1: u32 = bytes[start + 1] as u32;
    let b2: u32 = bytes[start + 2] as u32;
    let b3: u32 = bytes[start + 3] as u32;
    proof {
        let s = bytes@.subrange(start as int, start + 4);
        reveal_with_fuel(be_value, 5);
        let s3 = s.drop_last();
        let s2 = s3.drop_last();
        let s1 = s2.drop_last();
        assert(s.last() == b3 && s3.last() == b2 && s2.last() == b1 && s1.last() == b0);
        assert(s1.drop_last().len() == 0);
    }
    ((b0 * 256 + b1) * 256 + b2) * 256 + b3
}

/// Appends a copy of `src` to `out`.
pub fn append_bytes(out: &mut Vec<u8>, src: &[u8])
    ensures
        final(out)@ == old(out)@ + src@,
{
    out.extend_from_slice(src);
    assert(out@ =~= old(out)@ + src@);
}

} // verus!
