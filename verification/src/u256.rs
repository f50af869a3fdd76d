//! 256-bit unsigned integers, held as four 64-bit limbs.

use crate::bytes::{
    be_bytes, be_value, lemma_be_bytes_concat, lemma_be_value_bound, lemma_be_value_concat,
    lemma_radix_pow_adds, lemma_radix_pow_values, push_limb, radix_pow, read_limb,
};
use vstd::prelude::*;

verus! {

/// The value of one limb position: 2^64.
pub open spec fn limb_base() -> nat {
    0x1_0000_0000_0000_0000
}

/// The number of values a [`U256`] can take: 2^256.
pub open spec fn u256_bound() -> nat {
    limb_base() * limb_base() * limb_base() * limb_base()
}

/// An unsigned 256-bit integer. `w3` is the most significant limb.
#[derive(Clone, Copy, Debug, PartialEq, Eq, Structural, Hash)]
pub struct U256 {
    pub w3: u64,
    pub w2: u64,
    pub w1: u64,
    pub w0: u64,
}

impl View for U256 {
    type V = nat;

    open spec fn view(&self) -> nat {
        (((self.w3 as nat * limb_base() + self.w2 as nat) * limb_base() + self.w1 as nat)
            * limb_base() + self.w0 as nat) as nat
    }
}

/// The powers of the limb base, written out.
pub proof fn lemma_bound_values()
    ensures
        limb_base() * limb_base() == 0x1_0000_0000_0000_0000_0000_0000_0000_0000,
        limb_base() * limb_base() * limb_base()
            == 0x1_0000_0000_0000_0000_0000_0000_0000_0000_0000_0000_0000_0000,
        u256_bound()
            == 0x1_0000_0000_0000_0000_0000_0000_0000_0000_0000_0000_0000_0000_0000_0000_0000_0000,
{
    assert(0x1_0000_0000_0000_0000nat * 0x1_0000_0000_0000_0000nat
        == 0x1_0000_0000_0000_0000_0000_0000_0000_0000nat) by (nonlinear_arith);
    assert(0x1_0000_0000_0000_0000_0000_0000_0000_0000nat * 0x1_0000_0000_0000_0000nat
        == 0x1_0000_0000_0000_0000_0000_0000_0000_0000_0000_0000_0000_0000nat) by (nonlinear_arith);
    assert(0x1_0000_0000_0000_0000_0000_0000_0000_0000_0000_0000_0000_0000nat
        * 0x1_0000_0000_0000_0000nat
        == 0x1_0000_0000_0000_0000_0000_0000_0000_0000_0000_0000_0000_0000_0000_0000_0000_0000nat)
        by (nonlinear_arith);
}

/// Two limb vectors denote the same number only if they are the same limbs,
/// and every one of them denotes a number below 2^256.
pub proof fn lemma_view_injective(a: U256, b: U256)
    ensures
        a@ == b@ <==> a == b,
        a@ < u256_bound(),
{
    lemma_bound_values();
}

/// The 256-bit integer that denotes `n`, for `n` below 2^256.
pub open spec fn u256_of(n: nat) -> U256 {
    U256 {
        w3: (n / 0x1_0000_0000_0000_0000_0000_0000_0000_0000_0000_0000_0000_0000nat
            % 0x1_0000_0000_0000_0000) as u64,
        w2: (n / 0x1_0000_0000_0000_0000_0000_0000_0000_0000nat % 0x1_0000_0000_0000_0000) as u64,
        w1: (n / 0x1_0000_0000_0000_0000 % 0x1_0000_0000_0000_0000) as u64,
        w0: (n % 0x1_0000_0000_0000_0000) as u64,
    }
}

/// [`u256_of`] undoes the view.
pub proof fn lemma_u256_of_view(x: U256)
    ensures
        u256_of(x@) == x,
{
    let b1 = 0x1_0000_0000_0000_0000int;
    let b2 = 0x1_0000_0000_0000_0000_0000_0000_0000_0000int;
    let b3 = 0x1_0000_0000_0000_0000_0000_0000_0000_0000_0000_0000_0000_0000int;
    let low = x.w0 as int;
    let mid = x.w1 as int * b1 + low;
    let most = x.w2 as int * b2 + mid;
    assert(x@ as int == x.w3 as int * b3 + most);
    assert(0 <= mid < b2);
    assert(0 <= most < b3);
    let n = x@ as int;
    assert(n % b1 == x.w0);
    assert(n / b1 == (x.w3 as int * b1 + x.w2 as int) * b1 + x.w1 as int);
    assert(n / b2 == x.w3 as int * b1 + x.w2 as int);
    assert(n / b3 == x.w3 as int);
}

/// The view undoes [`u256_of`] on the numbers below 2^256.
pub proof fn lemma_view_of_u256(n: nat)
    requires
        n < u256_bound(),
    ensures
        u256_of(n)@ == n,
{
    lemma_bound_values();
    let b1 = 0x1_0000_0000_0000_0000int;
    let b2 = 0x1_0000_0000_0000_0000_0000_0000_0000_0000int;
    let b3 = 0x1_0000_0000_0000_0000_0000_0000_0000_0000_0000_0000_0000_0000int;
    let m = n as int;
    let q1 = m / b1;
    let q2 = m / b2;
    let q3 = m / b3;
    assert(q2 == q1 / b1);
    assert(q3 == q2 / b1);
    assert(q3 < b1);
    assert(m == q1 * b1 + m % b1);
    assert(q1 == q2 * b1 + q1 % b1);
    assert(q2 == q3 * b1 + q2 % b1);
    assert(q3 % b1 == q3);
}

/// A 32-byte word denotes a number below 2^256.
pub proof fn lemma_word_bound(word: Seq<u8>)
    requires
        word.len() == 32,
    ensures
        be_value(word) < u256_bound(),
        radix_pow(32) == u256_bound(),
{
    lemma_be_value_bound(word);
    lemma_radix_pow_values();
    lemma_radix_pow_adds(8, 8);
    lemma_radix_pow_adds(16, 16);
    lemma_bound_values();
    let p16 = radix_pow(16);
    assert(p16 == 0x1_0000_0000_0000_0000_0000_0000_0000_0000nat) by (nonlinear_arith)
        requires
            p16 == 0x1_0000_0000_0000_0000nat * 0x1_0000_0000_0000_0000nat,
    ;
    assert(p16 * p16
        == 0x1_0000_0000_0000_0000_0000_0000_0000_0000_0000_0000_0000_0000_0000_0000_0000_0000nat)
        by (nonlinear_arith)
        requires
            p16 == 0x1_0000_0000_0000_0000_0000_0000_0000_0000nat,
    ;
}

/// `x - y - borrow_in` in one limb, with the borrow that leaves it.
fn limb_sub(x: u64, y: u64, borrow_in: bool) -> (r: (u64, bool))
    ensures
        r.0 as int - (if r.1 { limb_base() as int } else { 0 }) == x as int - y as int - (if borrow_in {
            1int
        } else {
            0
        }),
{
    let take: u128 = y as u128 + (if borrow_in { 1u128 } else { 0u128 });
    let have: u128 = x as u128;
    if have >= take {
        ((have - take) as u64, false)
    } else {
        ((have + 0x1_0000_0000_0000_0000u128 - take) as u64, true)
    }
}

/// `x * m + carry_in` split into its low limb and the carry that leaves it.
fn limb_mul(x: u64, m: u64, carry_in: u64) -> (r: (u64, u64))
    ensures
        r.0 as int + r.1 as int * limb_base() == x as int * m as int + carry_in as int,
{
    assert(x as int * m as int <= 0xffff_ffff_ffff_ffff * 0xffff_ffff_ffff_ffff) by (nonlinear_arith)
        requires
            0 <= x as int <= 0xffff_ffff_ffff_ffff,
            0 <= m as int <= 0xffff_ffff_ffff_ffff,
    ;
    assert(0 <= x as int * m as int) by (nonlinear_arith)
        requires
            0 <= x as int,
            0 <= m as int,
    ;
    let product: u128 = (x as u128) * (m as u128) + carry_in as u128;
    let low: u64 = (product % 0x1_0000_0000_0000_0000u128) as u64;
    let high: u64 = (product / 0x1_0000_0000_0000_0000u128) as u64;
    (low, high)
}

proof fn lemma_sub_limbs(a: U256, b: U256, d: U256, c0: int, c1: int, c2: int, c3: int)
    requires
        d.w0 as int - c0 * limb_base() == a.w0 as int - b.w0 as int,
        d.w1 as int - c1 * limb_base() == a.w1 as int - b.w1 as int - c0,
        d.w2 as int - c2 * limb_base() == a.w2 as int - b.w2 as int - c1,
        d.w3 as int - c3 * limb_base() == a.w3 as int - b.w3 as int - c2,
    ensures
        a@ - b@ == d@ - c3 * u256_bound(),
{
    lemma_bound_values();
    let bb = 0x1_0000_0000_0000_0000int;
    let top = a.w3 as int - b.w3 as int;
    let upper = top * bb + (a.w2 as int - b.w2 as int);
    let most = upper * bb + (a.w1 as int - b.w1 as int);
    assert(top == d.w3 as int - c3 * bb + c2);
    assert(upper == (d.w3 as int * bb + d.w2 as int) - c3 * (bb * bb) + c1);
    assert(most == ((d.w3 as int * bb + d.w2 as int) * bb + d.w1 as int) - c3 * (bb * bb * bb)
        + c0);
    assert(a@ - b@ == most * bb + (a.w0 as int - b.w0 as int));
}

proof fn lemma_scale_step(x: int, y: int, m: int, bb: int)
    by (nonlinear_arith)
    ensures
        (x * bb + y) * m == (x * m) * bb + y * m,
{
}

proof fn lemma_mul_limbs(a: U256, m: int, l: U256, c0: int, c1: int, c2: int, c3: int)
    requires
        l.w0 as int + c0 * limb_base() == a.w0 as int * m,
        l.w1 as int + c1 * limb_base() == a.w1 as int * m + c0,
        l.w2 as int + c2 * limb_base() == a.w2 as int * m + c1,
        l.w3 as int + c3 * limb_base() == a.w3 as int * m + c2,
    ensures
        l@ + c3 * u256_bound() == a@ * m,
{
    lemma_bound_values();
    let bb = 0x1_0000_0000_0000_0000int;
    let top = a.w3 as int;
    let upper = top * bb + a.w2 as int;
    let most = upper * bb + a.w1 as int;
    let all = most * bb + a.w0 as int;
    lemma_scale_step(top, a.w2 as int, m, bb);
    lemma_scale_step(upper, a.w1 as int, m, bb);
    lemma_scale_step(most, a.w0 as int, m, bb);
    assert(top * m == l.w3 as int + c3 * bb - c2);
    assert(upper * m == (l.w3 as int * bb + l.w2 as int) + c3 * (bb * bb) - c1);
    assert(most * m == ((l.w3 as int * bb + l.w2 as int) * bb + l.w1 as int) + c3 * (bb * bb * bb)
        - c0);
    assert(all * m == l@ + c3 * (bb * bb * bb * bb));
    assert(a@ == all);
}

impl U256 {
    /// The number zero.
    pub fn zero() -> (r: U256)
        ensures
            r@ == 0,
            r == (U256 { w3: 0, w2: 0, w1: 0, w0: 0 }),
    {
        U256 { w3: 0, w2: 0, w1: 0, w0: 0 }
    }

    /// The number `v`.
    pub fn from_u64(v: u64) -> (r: U256)
        ensures
            r@ == v,
            r == (U256 { w3: 0, w2: 0, w1: 0, w0: v }),
    {
        U256 { w3: 0, w2: 0, w1: 0, w0: v }
    }

    /// The number `v`.
    pub fn from_u128(v: u128) -> (r: U256)
        ensures
            r@ == v,
    {
        let high: u64 = (v / 0x1_0000_0000_0000_0000u128) as u64;
        let low: u64 = (v % 0x1_0000_0000_0000_0000u128) as u64;
        U256 { w3: 0, w2: 0, w1: high, w0: low }
    }

    /// Whether this is the number zero.
    pub fn is_zero(&self) -> (r: bool)
        ensures
            r == (self@ == 0),
    {
        self.w3 == 0 && self.w2 == 0 && self.w1 == 0 && self.w0 == 0
    }

    /// Whether `self` is strictly smaller than `other`.
    pub fn lt(&self, other: &U256) -> (r: bool)
        ensures
            r == (self@ < other@),
    {
        if self.w3 != other.w3 {
            self.w3 < other.w3
        } else if self.w2 != other.w2 {
            self.w2 < other.w2
        } else if self.w1 != other.w1 {
            self.w1 < other.w1
        } else {
            self.w0 < other.w0
        }
    }

    /// Whether `self` is at most `other`.
    pub fn le(&self, other: &U256) -> (r: bool)
        ensures
            r == (self@ <= other@),
    {
        !other.lt(self)
    }

    /// `self - other`, or `None` where that would be negative.
    pub fn checked_sub(&self, other: &U256) -> (r: Option<U256>)
        ensures
            r is Some <==> self@ >= other@,
            r matches Some(d) ==> d@ == self@ - other@,
    {
        let (d0, b0) = limb_sub(self.w0, other.w0, false);
        let (d1, b1) = limb_sub(self.w1, other.w1, b0);
        let (d2, b2) = limb_sub(self.w2, other.w2, b1);
        let (d3, b3) = limb_sub(self.w3, other.w3, b2);
        let d = U256 { w3: d3, w2: d2, w1: d1, w0: d0 };
        proof {
            lemma_sub_limbs(
                *self,
                *other,
                d,
                if b0 { 1 } else { 0 },
                if b1 { 1 } else { 0 },
                if b2 { 1 } else { 0 },
                if b3 { 1 } else { 0 },
            );
            lemma_view_injective(d, d);
        }
        if b3 {
            None
        } else {
            Some(d)
        }
    }

    /// `self + v`, or `None` where that does not fit in 256 bits.
    pub fn checked_add_u64(&self, v: u64) -> (r: Option<U256>)
        ensures
            r is Some <==> self@ + v < u256_bound(),
            r matches Some(s) ==> s@ == self@ + v,
    {
        let s0: u128 = self.w0 as u128 + v as u128;
        let s1: u128 = self.w1 as u128 + s0 / 0x1_0000_0000_0000_0000u128;
        let s2: u128 = self.w2 as u128 + s1 / 0x1_0000_0000_0000_0000u128;
        let s3: u128 = self.w3 as u128 + s2 / 0x1_0000_0000_0000_0000u128;
        let sum = U256 {
            w3: (s3 % 0x1_0000_0000_0000_0000u128) as u64,
            w2: (s2 % 0x1_0000_0000_0000_0000u128) as u64,
            w1: (s1 % 0x1_0000_0000_0000_0000u128) as u64,
            w0: (s0 % 0x1_0000_0000_0000_0000u128) as u64,
        };
        let carry: u128 = s3 / 0x1_0000_0000_0000_0000u128;
        proof {
            lemma_bound_values();
            lemma_view_injective(sum, sum);
            let bb = 0x1_0000_0000_0000_0000int;
            let c0 = (s0 / 0x1_0000_0000_0000_0000u128) as int;
            let c1 = (s1 / 0x1_0000_0000_0000_0000u128) as int;
            let c2 = (s2 / 0x1_0000_0000_0000_0000u128) as int;
            let top = self.w3 as int;
            let upper = top * bb + self.w2 as int;
            let most = upper * bb + self.w1 as int;
            assert(top + c2 == sum.w3 as int + carry as int * bb);
            assert(upper + c1 == (sum.w3 as int * bb + sum.w2 as int) + carry as int * (bb * bb));
            assert(most + c0 == ((sum.w3 as int * bb + sum.w2 as int) * bb + sum.w1 as int)
                + carry as int * (bb * bb * bb));
            assert(self@ + v == sum@ + carry as int * (bb * bb * bb * bb));
        }
        if carry == 0 {
            Some(sum)
        } else {
            None
        }
    }

    /// `self * m`, or `None` where that does not fit in 256 bits.
    pub fn checked_mul_u64(&self, m: u64) -> (r: Option<U256>)
        ensures
            r is Some <==> self@ * (m as nat) < u256_bound(),
            r matches Some(p) ==> p@ == self@ * (m as nat),
    {
        let (low, high) = self.widening_mul_u64(m);
        proof {
            lemma_view_injective(low, low);
            lemma_bound_values();
            let bound = u256_bound();
            let h = high as nat;
            assert(h * bound >= bound || h == 0) by (nonlinear_arith)
                requires
                    bound > 0,
            ;
        }
        if high == 0 {
            Some(low)
        } else {
            None
        }
    }

    /// The distance between `self` and `other`.
    pub fn abs_diff(&self, other: &U256) -> (r: U256)
        ensures
            r@ == if self@ >= other@ {
                self@ - other@
            } else {
                other@ - self@
            },
    {
        match self.checked_sub(other) {
            Some(d) => d,
            None => {
                match other.checked_sub(self) {
                    Some(d) => d,
                    None => U256::zero(),
                }
            },
        }
    }

    /// `self * m` in full: the low 256 bits and what overflows them.
    pub fn widening_mul_u64(&self, m: u64) -> (r: (U256, u64))
        ensures
            r.0@ + r.1 as nat * u256_bound() == self@ * m as nat,
    {
        let (l0, c0) = limb_mul(self.w0, m, 0);
        let (l1, c1) = limb_mul(self.w1, m, c0);
        let (l2, c2) = limb_mul(self.w2, m, c1);
        let (l3, c3) = limb_mul(self.w3, m, c2);
        proof {
            lemma_mul_limbs(
                *self,
                m as int,
                U256 { w3: l3, w2: l2, w1: l1, w0: l0 },
                c0 as int,
                c1 as int,
                c2 as int,
                c3 as int,
            );
        }
        (U256 { w3: l3, w2: l2, w1: l1, w0: l0 }, c3)
    }

    /// The 32-byte big-endian encoding of this number.
    pub fn to_be_bytes(&self) -> (r: Vec<u8>)
        ensures
            r@ == be_bytes(self@, 32),
    {
        let mut out: Vec<u8> = Vec::new();
        push_limb(&mut out, self.w3);
        push_limb(&mut out, self.w2);
        push_limb(&mut out, self.w1);
        push_limb(&mut out, self.w0);
        proof {
            lemma_radix_pow_values();
            let top = self.w3 as nat;
            let upper = top * limb_base() + self.w2 as nat;
            let most = upper * limb_base() + self.w1 as nat;
            lemma_be_bytes_concat(top, 8, self.w2 as nat, 8);
            lemma_be_bytes_concat(upper, 16, self.w1 as nat, 8);
            lemma_be_bytes_concat(most, 24, self.w0 as nat, 8);
            assert(out@ =~= be_bytes(self@, 32));
        }
        out
    }

    /// The number that a 32-byte word denotes.
    pub fn from_be_array(bytes: &[u8; 32]) -> (r: U256)
        ensures
            r@ == be_value(bytes@),
    {
        let word: &[u8] = bytes.as_slice();
        U256::read_word(word)
    }

    /// The number that `bytes` denotes, where `bytes` is exactly one 32-byte word.
    pub fn from_be_bytes(bytes: &[u8]) -> (r: Option<U256>)
        ensures
            r is Some <==> bytes@.len() == 32,
            r matches Some(v) ==> v@ == be_value(bytes@),
    {
        if bytes.len() != 32 {
            return None;
        }
        Some(U256::read_word(bytes))
    }

    fn read_word(bytes: &[u8]) -> (r: U256)
        requires
            bytes@.len() == 32,
        ensures
            r@ == be_value(bytes@),
    {
        let w3: u64 = read_limb(bytes, 0);
        let w2: u64 = read_limb(bytes, 8);
        let w1: u64 = read_limb(bytes, 16);
        let w0: u64 = read_limb(bytes, 24);
        proof {
            lemma_radix_pow_values();
            let s3 = bytes@.subrange(0, 8);
            let s2 = bytes@.subrange(8, 16);
            let s1 = bytes@.subrange(16, 24);
            let s0 = bytes@.subrange(24, 32);
            lemma_be_value_concat(s3, s2);
            lemma_be_value_concat(s3 + s2, s1);
            lemma_be_value_concat(s3 + s2 + s1, s0);
            assert(s3 + s2 + s1 + s0 =~= bytes@);
        }
        U256 { w3, w2, w1, w0 }
    }
}

} // verus!
