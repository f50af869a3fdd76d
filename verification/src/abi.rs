//! The call data of the token functions that the engine calls, and the
//! decoding of what they return.

use crate::address::Address;
use crate::bytes::{append_bytes, be_bytes, be_value};
use crate::u256::U256;
use vstd::prelude::*;

verus! {

/// The selector of `balanceOf(address)`.
pub open spec fn balance_of_selector() -> Seq<u8> {
    seq![0x70u8, 0xa0u8, 0x82u8, 0x31u8]
}

/// The selector of `allowance(address,address)`.
pub open spec fn allowance_selector() -> Seq<u8> {
    seq![0xddu8, 0x62u8, 0xedu8, 0x3eu8]
}

/// The selector of `transfer(address,uint256)`.
pub open spec fn transfer_selector() -> Seq<u8> {
    seq![0xa9u8, 0x05u8, 0x9cu8, 0xbbu8]
}

/// The selector of `transferFrom(address,address,uint256)`.
pub open spec fn transfer_from_selector() -> Seq<u8> {
    seq![0x23u8, 0xb8u8, 0x72u8, 0xddu8]
}

/// The call data of `balanceOf(account)`.
pub open spec fn balance_of_calldata(account: Address) -> Seq<u8> {
    balance_of_selector() + be_bytes(account@, 32)
}

/// The call data of `allowance(owner, spender)`.
pub open spec fn allowance_calldata(owner: Address, spender: Address) -> Seq<u8> {
    allowance_selector() + be_bytes(owner@, 32) + be_bytes(spender@, 32)
}

/// The call data of `transfer(to, amount)`.
pub open spec fn transfer_calldata(to: Address, amount: U256) -> Seq<u8> {
    transfer_selector() + be_bytes(to@, 32) + be_bytes(amount@, 32)
}

/// The call data of `transferFrom(from, to, amount)`.
pub open spec fn transfer_from_calldata(from: Address, to: Address, amount: U256) -> Seq<u8> {
    transfer_from_selector() + be_bytes(from@, 32) + be_bytes(to@, 32) + be_bytes(amount@, 32)
}

/// The number that returned data holds, where it is exactly one 32-byte word.
pub open spec fn decoded_word(data: Seq<u8>) -> Option<nat> {
    if data.len() == 32 {
        Some(be_value(data))
    } else {
        None
    }
}

fn start_calldata(s0: u8, s1: u8, s2: u8, s3: u8) -> (r: Vec<u8>)
    ensures
        r@ == seq![s0, s1, s2, s3],
{
    let mut out: Vec<u8> = Vec::new();
    out.push(s0);
    out.push(s1);
    out.push(s2);
    out.push(s3);
    assert(out@ =~= seq![s0, s1, s2, s3]);
    out
}

fn push_word(out: &mut Vec<u8>, word: &U256)
    ensures
        final(out)@ == old(out)@ + be_bytes(word@, 32),
{
    let bytes: Vec<u8> = word.to_be_bytes();
    append_bytes(out, bytes.as_slice());
}

/// The call data of `balanceOf(account)`.
pub fn encode_balance_of(account: &Address) -> (r: Vec<u8>)
    ensures
        r@ == balance_of_calldata(*account),
{
    let mut out: Vec<u8> = start_calldata(0x70, 0xa0, 0x82, 0x31);
    push_word(&mut out, &account.to_word());
    out
}

/// The call data of `allowance(owner, spender)`.
pub fn encode_allowance(owner: &Address, spender: &Address) -> (r: Vec<u8>)
    ensures
        r@ == allowance_calldata(*owner, *spender),
{
    let mut out: Vec<u8> = start_calldata(0xdd, 0x62, 0xed, 0x3e);
    push_word(&mut out, &owner.to_word());
    push_word(&mut out, &spender.to_word());
    out
}

/// The call data of `transfer(to, amount)`.
pub fn encode_transfer(to: &Address, amount: &U256) -> (r: Vec<u8>)
    ensures
        r@ == transfer_calldata(*to, *amount),
{
    let mut out: Vec<u8> = start_calldata(0xa9, 0x05, 0x9c, 0xbb);
    push_word(&mut out, &to.to_word());
    push_word(&mut out, amount);
    out
}

/// The call data of `transferFrom(from, to, amount)`.
pub fn encode_transfer_from(from: &Address, to: &Address, amount: &U256) -> (r: Vec<u8>)
    ensures
        r@ == transfer_from_calldata(*from, *to, *amount),
{
    let mut out: Vec<u8> = start_calldata(0x23, 0xb8, 0x72, 0xdd);
    push_word(&mut out, &from.to_word());
    push_word(&mut out, &to.to_word());
    push_word(&mut out, amount);
    out
}

/// The number that returned data holds, or `None` where the data is not
/// exactly one 32-byte word.
pub fn decode_word(data: &[u8]) -> (r: Option<U256>)
    ensures
        r is Some <==> decoded_word(data@) is Some,
        r matches Some(v) ==> decoded_word(data@) == Some(v@),
{
    U256::from_be_bytes(data)
}

} // verus!
