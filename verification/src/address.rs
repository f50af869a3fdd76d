//! 20-byte account addresses.

use crate::bytes::{
    be_bytes, be_value, lemma_be_bytes_concat, lemma_be_value_concat, lemma_radix_pow_values,
    push_half_limb, push_limb, read_half_limb, read_limb,
};
use crate::u256::{limb_base, U256};
use vstd::prelude::*;

verus! {

/// The address of an account or contract: a 160-bit number, held as its top
/// 32 bits and two 64-bit limbs.
#[derive(Clone, Copy, Debug, PartialEq, Eq, Structural, Hash)]
pub struct Address {
    pub hi: u32,
    pub mid: u64,
    pub lo: u64,
}

impl View for Address {
    type V = nat;

    open spec fn view(&self) -> nat {
        ((self.hi as nat * limb_base() + self.mid as nat) * limb_base() + self.lo as nat) as nat
    }
}

/// The address that denotes `n`, for `n` below 2^160.
pub open spec fn address_of(n: nat) -> Address {
    Address {
        hi: (n / 0x1_0000_0000_0000_0000_0000_0000_0000_0000nat % 0x1_0000_0000) as u32,
        mid: (n / 0x1_0000_0000_0000_0000 % 0x1_0000_0000_0000_0000) as u64,
        lo: (n % 0x1_0000_0000_0000_0000) as u64,
    }
}

/// [`address_of`] undoes the view.
pub proof fn lemma_address_of_view(a: Address)
    ensures
        address_of(a@) == a,
{
    let b1 = 0x1_0000_0000_0000_0000int;
    let b2 = 0x1_0000_0000_0000_0000_0000_0000_0000_0000int;
    let n = a@ as int;
    let low = a.mid as int * b1 + a.lo as int;
    assert(n == a.hi as int * b2 + low);
    assert(0 <= low < b2);
    assert(n % b1 == a.lo);
    assert(n / b1 == a.hi as int * b1 + a.mid as int);
    assert(n / b2 == a.hi as int);
}

impl Address {
    /// The address whose bytes are all zero.
    pub fn zero() -> (r: Address)
        ensures
            r@ == 0,
            r == (Address { hi: 0, mid: 0, lo: 0 }),
    {
        Address { hi: 0, mid: 0, lo: 0 }
    }

    /// Whether this is the zero address.
    pub fn is_zero(&self) -> (r: bool)
        ensures
            r == (self@ == 0),
            r == (*self == Address { hi: 0, mid: 0, lo: 0 }),
    {
        self.hi == 0 && self.mid == 0 && self.lo == 0
    }

    /// The address as a 256-bit number, as it stands in a 32-byte word.
    pub fn to_word(&self) -> (r: U256)
        ensures
            r@ == self@,
    {
        U256 { w3: 0, w2: self.hi as u64, w1: self.mid, w0: self.lo }
    }

    /// The 20 bytes of the address.
    pub fn to_be_bytes(&self) -> (r: Vec<u8>)
        ensures
            r@ == be_bytes(self@, 20),
    {
        let mut out: Vec<u8> = Vec::new();
        push_half_limb(&mut out, self.hi);
        push_limb(&mut out, self.mid);
        push_limb(&mut out, self.lo);
        proof {
            lemma_radix_pow_values();
            let top = self.hi as nat;
            let upper = top * limb_base() + self.mid as nat;
            lemma_be_bytes_concat(top, 4, self.mid as nat, 8);
            lemma_be_bytes_concat(upper, 12, self.lo as nat, 8);
            assert(out@ =~= be_bytes(self@, 20));
        }
        out
    }

    /// The address that `bytes` holds, where `bytes` is exactly 20 bytes long.
    pub fn from_be_bytes(bytes: &[u8]) -> (r: Option<Address>)
        ensures
            r is Some <==> bytes@.len() == 20,
            r matches Some(a) ==> a@ == be_value(bytes@),
    {
        if bytes.len() != 20 {
            return None;
        }
        let hi: u32 = read_half_limb(bytes, 0);
        let mid: u64 = read_limb(bytes, 4);
        let lo: u64 = read_limb(bytes, 12);
        proof {
            lemma_radix_pow_values();
            let s2 = bytes@.subrange(0, 4);
            let s1 = bytes@.subrange(4, 12);
            let s0 = bytes@.subrange(12, 20);
            lemma_be_value_concat(s2, s1);
            lemma_be_value_concat(s2 + s1, s0);
            assert(s2 + s1 + s0 =~= bytes@);
        }
        Some(Address { hi, mid, lo })
    }
}

} // verus!
