//! Keccak-256 and the storage keys of Solidity mappings derived from it.

use crate::bytes::{append_bytes, be_bytes, be_value};
use crate::u256::U256;
use tiny_keccak::{Hasher, Keccak};
use vstd::prelude::*;

verus! {

/// The Keccak-256 digest of `data`.
pub uninterp spec fn keccak256_digest(data: Seq<u8>) -> Seq<u8>;

/// Calls `tiny_keccak`: a fresh `Keccak::v256()` hasher absorbs `data` with
/// one `update` and `finalize` squeezes 32 bytes out of it. Assumed, not
/// proved: the bytes that come out are a function of `data` alone, which is
/// what gives them the name [`keccak256_digest`].
#[verifier::external_body]
fn keccak256(data: &[u8]) -> (digest: [u8; 32])
    ensures
        digest@ == keccak256_digest(data@),
{
    let mut hasher = Keccak::v256();
    hasher.update(data);
    let mut digest = [0u8; 32];
    hasher.finalize(&mut digest);
    digest
}

/// What is hashed to find the entry of `key` in the mapping at `slot`: the
/// key and the slot, each as a 32-byte word.
pub open spec fn mapping_preimage(key: nat, slot: nat) -> Seq<u8> {
    be_bytes(key, 32) + be_bytes(slot, 32)
}

/// The storage key of the entry of `key` in the mapping at `slot`.
pub open spec fn mapping_key(key: nat, slot: nat) -> nat {
    be_value(keccak256_digest(mapping_preimage(key, slot)))
}

/// The storage key of the entry of `inner` in the mapping that is the entry
/// of `outer` in the mapping at `slot`.
pub open spec fn nested_mapping_key(outer: nat, inner: nat, slot: nat) -> nat {
    mapping_key(inner, mapping_key(outer, slot))
}

/// The bytes that are hashed to find the entry of `key` in the mapping at `slot`.
pub fn encode_mapping_preimage(key: &U256, slot: &U256) -> (r: Vec<u8>)
    ensures
        r@ == mapping_preimage(key@, slot@),
{
    let mut out: Vec<u8> = key.to_be_bytes();
    let slot_word: Vec<u8> = slot.to_be_bytes();
    append_bytes(&mut out, slot_word.as_slice());
    out
}

/// The storage key of the entry of `key` in the mapping at `slot`.
pub fn mapping_slot(key: &U256, slot: &U256) -> (r: U256)
    ensures
        r@ == mapping_key(key@, slot@),
{
    let preimage: Vec<u8> = encode_mapping_preimage(key, slot);
    let digest: [u8; 32] = keccak256(preimage.as_slice());
    U256::from_be_array(&digest)
}

/// The storage key of the entry of `inner` in the mapping that is the entry
/// of `outer` in the mapping at `slot`.
pub fn nested_mapping_slot(outer: &U256, inner: &U256, slot: &U256) -> (r: U256)
    ensures
        r@ == nested_mapping_key(outer@, inner@, slot@),
{
    let first: U256 = mapping_slot(outer, slot);
    mapping_slot(inner, &first)
}

} // verus!
