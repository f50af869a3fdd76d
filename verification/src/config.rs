//! The textual form of configured slots: a comma-separated list of entries
//! `ADDRESS@SLOT`, where the address is 40 hex digits, with or without a
//! leading `0x`, and the slot a decimal number below 2^256.

use crate::address::{address_of, lemma_address_of_view, Address};
use crate::bytes::{be_bytes, be_value};
use crate::slots::SlotEntry;
use crate::u256::{lemma_u256_of_view, lemma_view_injective, u256_bound, u256_of, U256};
use vstd::prelude::*;
use vstd::slice::slice_subrange;

verus! {

/// Why a list of configured slots was refused.
#[derive(Clone, Copy, Debug, PartialEq, Eq, Structural, Hash)]
pub enum ConfigError {
    /// An entry holds no `@`.
    MissingSeparator,
    /// What stands before the `@` is no address.
    InvalidAddress,
    /// What stands after the `@` is no slot.
    InvalidSlot,
}

impl ConfigError {
    /// What is wrong with the entry, in words.
    pub fn message(&self) -> (r: &'static str)
        ensures
            r@ == match self {
                ConfigError::MissingSeparator => "expected {addr}@{slot} format"@,
                ConfigError::InvalidAddress => "invalid token address"@,
                ConfigError::InvalidSlot => "invalid storage slot"@,
            },
    {
        match self {
            ConfigError::MissingSeparator => "expected {addr}@{slot} format",
            ConfigError::InvalidAddress => "invalid token address",
            ConfigError::InvalidSlot => "invalid storage slot",
        }
    }
}

/// The value of a hex digit, in either case.
pub open spec fn hex_digit(c: u8) -> Option<u8> {
    if 0x30 <= c <= 0x39 {
        Some((c - 0x30) as u8)
    } else if 0x61 <= c <= 0x66 {
        Some((c - 0x61 + 10) as u8)
    } else if 0x41 <= c <= 0x46 {
        Some((c - 0x41 + 10) as u8)
    } else {
        None
    }
}

/// The bytes that a string of hex digits denotes, two digits to the byte.
pub open spec fn hex_bytes(s: Seq<u8>) -> Option<Seq<u8>>
    decreases s.len(),
{
    if s.len() == 0 {
        Some(Seq::empty())
    } else if s.len() == 1 {
        None
    } else {
        match (
            hex_bytes(s.subrange(0, s.len() - 2)),
            hex_digit(s[s.len() - 2]),
            hex_digit(s[s.len() - 1]),
        ) {
            (Some(bytes), Some(high), Some(low)) => Some(bytes.push((high * 16 + low) as u8)),
            _ => None,
        }
    }
}

/// `s` without a leading `0x`.
pub open spec fn without_prefix(s: Seq<u8>) -> Seq<u8> {
    if s.len() >= 2 && s[0] == 0x30 && s[1] == 0x78 {
        s.skip(2)
    } else {
        s
    }
}

/// The address that `s` spells.
pub open spec fn parsed_address(s: Seq<u8>) -> Option<Address> {
    if without_prefix(s).len() == 40 {
        match hex_bytes(without_prefix(s)) {
            Some(bytes) => Some(address_of(be_value(bytes))),
            None => None,
        }
    } else {
        None
    }
}

/// The lower-case hex digit of a value below 16.
pub open spec fn hex_char(v: u8) -> u8 {
    if v < 10 {
        (0x30 + v) as u8
    } else {
        (0x61 + v - 10) as u8
    }
}

/// The hex digits that spell `bytes`, two lower-case digits to the byte.
pub open spec fn hex_text(bytes: Seq<u8>) -> Seq<u8>
    decreases bytes.len(),
{
    if bytes.len() == 0 {
        Seq::empty()
    } else {
        hex_text(bytes.drop_last()).push(hex_char(bytes.last() / 16)).push(
            hex_char(bytes.last() % 16),
        )
    }
}

/// How an address is spelled: `0x` and 40 lower-case hex digits.
pub open spec fn address_text(a: Address) -> Seq<u8> {
    seq![0x30u8, 0x78u8] + hex_text(be_bytes(a@, 20))
}

/// The hex digits that spell bytes are twice as many, and spell those bytes.
pub proof fn lemma_hex_text(bytes: Seq<u8>)
    ensures
        hex_text(bytes).len() == 2 * bytes.len(),
        hex_bytes(hex_text(bytes)) == Some(bytes),
    decreases bytes.len(),
{
    if bytes.len() > 0 {
        lemma_hex_text(bytes.drop_last());
        let text = hex_text(bytes);
        let last = bytes.last();
        assert(text.subrange(0, text.len() - 2) =~= hex_text(bytes.drop_last()));
        assert(hex_digit(hex_char(last / 16)) == Some((last / 16) as u8));
        assert(hex_digit(hex_char(last % 16)) == Some((last % 16) as u8));
        assert(bytes.drop_last().push(last) =~= bytes);
    }
}

/// The number that a string of decimal digits denotes.
pub open spec fn decimal_value(s: Seq<u8>) -> Option<nat>
    decreases s.len(),
{
    if s.len() == 0 {
        Some(0)
    } else {
        match decimal_value(s.drop_last()) {
            Some(v) => if 0x30 <= s.last() <= 0x39 {
                Some(v * 10 + (s.last() - 0x30) as nat)
            } else {
                None
            },
            None => None,
        }
    }
}

/// The slot that `s` spells.
pub open spec fn parsed_slot(s: Seq<u8>) -> Option<U256> {
    if s.len() == 0 {
        None
    } else {
        match decimal_value(s) {
            Some(v) => if v < u256_bound() {
                Some(u256_of(v))
            } else {
                None
            },
            None => None,
        }
    }
}

/// Where `c` first stands in `s`, or the length of `s` where it does not.
pub open spec fn index_of(s: Seq<u8>, c: u8) -> nat
    decreases s.len(),
{
    if s.len() == 0 {
        0
    } else if s[0] == c {
        0
    } else {
        1 + index_of(s.drop_first(), c)
    }
}

/// The entry that `s` spells: an address, the first `@`, a slot.
pub open spec fn parsed_entry(s: Seq<u8>) -> Result<SlotEntry, ConfigError> {
    let at = index_of(s, 0x40);
    if at >= s.len() {
        Err(ConfigError::MissingSeparator)
    } else {
        match parsed_address(s.subrange(0, at as int)) {
            None => Err(ConfigError::InvalidAddress),
            Some(token) => match parsed_slot(s.subrange(at as int + 1, s.len() as int)) {
                None => Err(ConfigError::InvalidSlot),
                Some(slot) => Ok(SlotEntry { token, slot }),
            },
        }
    }
}

/// The entries that a list of one or more entries spells, in order. The
/// first entry that is refused decides the error.
pub open spec fn parsed_entries(s: Seq<u8>) -> Result<Seq<SlotEntry>, ConfigError>
    decreases s.len(),
{
    let comma = index_of(s, 0x2c);
    match parsed_entry(s.subrange(0, comma as int)) {
        Err(e) => Err(e),
        Ok(entry) => if comma >= s.len() {
            Ok(seq![entry])
        } else {
            match parsed_entries(s.subrange(comma as int + 1, s.len() as int)) {
                Err(e) => Err(e),
                Ok(rest) => Ok(seq![entry] + rest),
            }
        },
    }
}

/// The entries that a list spells. The empty text is the empty list.
pub open spec fn parsed_list(s: Seq<u8>) -> Result<Seq<SlotEntry>, ConfigError> {
    if s.len() == 0 {
        Ok(Seq::empty())
    } else {
        parsed_entries(s)
    }
}

/// Where `c` first stands in `s`, or the length of `s` where it does not.
pub fn find_byte(s: &[u8], c: u8) -> (r: usize)
    ensures
        r == index_of(s@, c),
        r <= s@.len(),
{
    let mut i: usize = 0;
    assert(s@.skip(0) =~= s@);
    while i < s.len() && s[i] != c
        invariant
            i <= s.len(),
            index_of(s@, c) == i + index_of(s@.skip(i as int), c),
        decreases s.len() - i,
    {
        assert(s@.skip(i as int).drop_first() =~= s@.skip(i + 1));
        i += 1;
    }
    i
}

/// The value of a hex digit, in either case.
pub fn hex_digit_value(c: u8) -> (r: Option<u8>)
    ensures
        r == hex_digit(c),
{
    if 0x30 <= c && c <= 0x39 {
        Some(c - 0x30)
    } else if 0x61 <= c && c <= 0x66 {
        Some(c - 0x61 + 10)
    } else if 0x41 <= c && c <= 0x46 {
        Some(c - 0x41 + 10)
    } else {
        None
    }
}

/// A string that spells bytes has an even length, and each of its prefixes
/// of even length spells bytes too.
pub proof fn lemma_hex_prefix(s: Seq<u8>, pairs: nat)
    requires
        hex_bytes(s) is Some,
        2 * pairs <= s.len(),
    ensures
        s.len() % 2 == 0,
        hex_bytes(s.take(2 * pairs as int)) is Some,
    decreases s.len(),
{
    if s.len() >= 2 {
        let shorter = s.subrange(0, s.len() - 2);
        if 2 * pairs <= shorter.len() {
            lemma_hex_prefix(shorter, pairs);
            assert(shorter.take(2 * pairs as int) =~= s.take(2 * pairs as int));
        } else {
            lemma_hex_prefix(shorter, 0);
            assert(s.take(2 * pairs as int) =~= s);
        }
    } else {
        assert(s.take(2 * pairs as int) =~= s);
    }
}

/// The bytes that a string of hex digits denotes.
pub fn parse_hex(s: &[u8]) -> (r: Option<Vec<u8>>)
    ensures
        r is Some <==> hex_bytes(s@) is Some,
        r matches Some(bytes) ==> hex_bytes(s@) == Some(bytes@),
{
    let mut out: Vec<u8> = Vec::new();
    let mut i: usize = 0;
    assert(s@.take(0) =~= Seq::<u8>::empty());
    while i + 1 < s.len()
        invariant
            i <= s.len(),
            i % 2 == 0,
            hex_bytes(s@.take(i as int)) == Some(out@),
        decreases s.len() - i,
    {
        let ghost next = s@.take(i + 2);
        assert(next.subrange(0, next.len() - 2) =~= s@.take(i as int));
        match (hex_digit_value(s[i]), hex_digit_value(s[i + 1])) {
            (Some(high), Some(low)) => {
                out.push(high * 16 + low);
            },
            _ => {
                proof {
                    if hex_bytes(s@) is Some {
                        lemma_hex_prefix(s@, (i as nat + 2) / 2);
                    }
                }
                return None;
            },
        }
        i += 2;
    }
    if i < s.len() {
        proof {
            if hex_bytes(s@) is Some {
                lemma_hex_prefix(s@, 0);
            }
        }
        return None;
    }
    assert(s@.take(i as int) =~= s@);
    Some(out)
}

/// The address that `s` spells.
pub fn parse_address(s: &[u8]) -> (r: Option<Address>)
    ensures
        r == parsed_address(s@),
{
    let digits: &[u8] = if s.len() >= 2 && s[0] == 0x30 && s[1] == 0x78 {
        let rest = slice_subrange(s, 2, s.len());
        assert(rest@ =~= s@.skip(2));
        rest
    } else {
        s
    };
    if digits.len() != 40 {
        return None;
    }
    match parse_hex(digits) {
        Some(bytes) => {
            proof {
                lemma_hex_prefix(digits@, 0);
                lemma_hex_len(digits@);
            }
            match Address::from_be_bytes(bytes.as_slice()) {
                Some(a) => {
                    proof {
                        lemma_address_of_view(a);
                    }
                    Some(a)
                },
                None => None,
            }
        },
        None => None,
    }
}

fn hex_char_of(v: u8) -> (r: u8)
    requires
        v < 16,
    ensures
        r == hex_char(v),
{
    if v < 10 {
        0x30 + v
    } else {
        0x61 + v - 10
    }
}

/// Spells an address: `0x` and 40 lower-case hex digits.
pub fn format_address(a: &Address) -> (r: Vec<u8>)
    ensures
        r@ == address_text(*a),
{
    let bytes: Vec<u8> = a.to_be_bytes();
    let mut out: Vec<u8> = Vec::new();
    out.push(0x30);
    out.push(0x78);
    let mut i: usize = 0;
    assert(bytes@.take(0) =~= Seq::<u8>::empty());
    while i < bytes.len()
        invariant
            i <= bytes.len(),
            out@ == seq![0x30u8, 0x78u8] + hex_text(bytes@.take(i as int)),
        decreases bytes.len() - i,
    {
        let b: u8 = bytes[i];
        assert(bytes@.take(i + 1).drop_last() =~= bytes@.take(i as int));
        out.push(hex_char_of(b / 16));
        out.push(hex_char_of(b % 16));
        i += 1;
    }
    assert(bytes@.take(i as int) =~= bytes@);
    out
}

/// A string of hex digits spells half as many bytes.
pub proof fn lemma_hex_len(s: Seq<u8>)
    requires
        hex_bytes(s) is Some,
    ensures
        2 * hex_bytes(s)->Some_0.len() == s.len(),
    decreases s.len(),
{
    if s.len() >= 2 {
        lemma_hex_len(s.subrange(0, s.len() - 2));
    }
}

/// Every prefix of a string of decimal digits is one, and denotes no more.
pub proof fn lemma_decimal_prefix(s: Seq<u8>, n: nat)
    requires
        decimal_value(s) is Some,
        n <= s.len(),
    ensures
        decimal_value(s.take(n as int)) matches Some(v) && v <= decimal_value(s)->Some_0,
    decreases s.len(),
{
    if n < s.len() {
        lemma_decimal_prefix(s.drop_last(), n);
        assert(s.drop_last().take(n as int) =~= s.take(n as int));
    } else {
        assert(s.take(n as int) =~= s);
    }
}

/// The slot that `s` spells.
pub fn parse_slot(s: &[u8]) -> (r: Option<U256>)
    ensures
        r == parsed_slot(s@),
{
    if s.len() == 0 {
        return None;
    }
    let mut acc: U256 = U256::zero();
    let mut i: usize = 0;
    assert(s@.take(0) =~= Seq::<u8>::empty());
    while i < s.len()
        invariant
            i <= s.len(),
            decimal_value(s@.take(i as int)) == Some(acc@),
        decreases s.len() - i,
    {
        let c: u8 = s[i];
        let ghost next = s@.take(i + 1);
        assert(next.drop_last() =~= s@.take(i as int));
        proof {
            if decimal_value(s@) is Some {
                lemma_decimal_prefix(s@, (i + 1) as nat);
            }
        }
        if c < 0x30 || c > 0x39 {
            return None;
        }
        let scaled: U256 = match acc.checked_mul_u64(10) {
            Some(v) => v,
            None => {
                return None;
            },
        };
        acc = match scaled.checked_add_u64((c - 0x30) as u64) {
            Some(v) => v,
            None => {
                return None;
            },
        };
        i += 1;
    }
    assert(s@.take(i as int) =~= s@);
    proof {
        lemma_u256_of_view(acc);
        lemma_view_injective(acc, acc);
    }
    Some(acc)
}

/// The entry that `s` spells.
pub fn parse_entry(s: &[u8]) -> (r: Result<SlotEntry, ConfigError>)
    ensures
        r == parsed_entry(s@),
{
    let at: usize = find_byte(s, 0x40);
    if at >= s.len() {
        return Err(ConfigError::MissingSeparator);
    }
    let token: Address = match parse_address(slice_subrange(s, 0, at)) {
        Some(token) => token,
        None => {
            return Err(ConfigError::InvalidAddress);
        },
    };
    match parse_slot(slice_subrange(s, at + 1, s.len())) {
        Some(slot) => Ok(SlotEntry { token, slot }),
        None => Err(ConfigError::InvalidSlot),
    }
}

/// What a list comes to when `done` has been read off its front and `rest`
/// is still to be read.
pub open spec fn continued(done: Seq<SlotEntry>, rest: Result<Seq<SlotEntry>, ConfigError>)
    -> Result<Seq<SlotEntry>, ConfigError> {
    match rest {
        Ok(more) => Ok(done + more),
        Err(e) => Err(e),
    }
}

/// Reads a list of configured slots. The empty text is the empty list; any
/// other text is one or more entries separated by commas, and the first
/// entry that is refused decides the error.
pub fn parse_slot_list(text: &[u8]) -> (r: Result<Vec<SlotEntry>, ConfigError>)
    ensures
        r is Ok <==> parsed_list(text@) is Ok,
        r matches Ok(entries) ==> parsed_list(text@) == Ok::<Seq<SlotEntry>, ConfigError>(entries@),
        r matches Err(e) ==> parsed_list(text@) == Err::<Seq<SlotEntry>, ConfigError>(e),
{
    let mut out: Vec<SlotEntry> = Vec::new();
    if text.len() == 0 {
        return Ok(out);
    }
    let mut pos: usize = 0;
    assert(text@.subrange(0, text@.len() as int) =~= text@);
    loop
        invariant
            pos <= text.len(),
            parsed_entries(text@) == continued(
                out@,
                parsed_entries(text@.subrange(pos as int, text@.len() as int)),
            ),
            text@.len() > 0,
        decreases text.len() - pos,
    {
        let rest: &[u8] = slice_subrange(text, pos, text.len());
        let comma: usize = find_byte(rest, 0x2c);
        let ghost before = out@;
        match parse_entry(slice_subrange(rest, 0, comma)) {
            Err(e) => {
                return Err(e);
            },
            Ok(entry) => {
                out.push(entry);
                if comma >= rest.len() {
                    assert(before + seq![entry] =~= out@);
                    return Ok(out);
                }
                assert(rest@.subrange(comma + 1, rest@.len() as int) =~= text@.subrange(
                    pos + comma + 1,
                    text@.len() as int,
                ));
                assert forall|more: Seq<SlotEntry>| before + (seq![entry] + more) == out@ + more by {
                    assert(before + (seq![entry] + more) =~= out@ + more);
                }
                pos = pos + comma + 1;
            },
        }
    }
}

} // verus!
