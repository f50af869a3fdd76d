//! A finite map from token addresses to storage slots.

use crate::address::Address;
use crate::u256::U256;
use vstd::prelude::*;

verus! {

/// One entry of a [`SlotMap`].
#[derive(Clone, Copy, Debug, PartialEq, Eq, Structural)]
pub struct SlotEntry {
    pub token: Address,
    pub slot: U256,
}

/// The map that a list of entries denotes: a later entry for a token
/// replaces an earlier one.
pub open spec fn slots_of(entries: Seq<SlotEntry>) -> Map<Address, U256>
    decreases entries.len(),
{
    if entries.len() == 0 {
        Map::empty()
    } else {
        slots_of(entries.drop_last()).insert(entries.last().token, entries.last().slot)
    }
}

/// The slot that `slots` holds for `token`, if any.
pub open spec fn slot_for(slots: Map<Address, U256>, token: Address) -> Option<U256> {
    if slots.contains_key(token) {
        Some(slots[token])
    } else {
        None
    }
}

/// A finite map from token addresses to storage slots.
#[derive(Debug)]
pub struct SlotMap {
    entries: Vec<SlotEntry>,
}

impl View for SlotMap {
    type V = Map<Address, U256>;

    closed spec fn view(&self) -> Map<Address, U256> {
        slots_of(self.entries@)
    }
}

impl SlotMap {
    /// The empty map.
    pub fn new() -> (r: SlotMap)
        ensures
            r@ == Map::<Address, U256>::empty(),
    {
        SlotMap { entries: Vec::new() }
    }

    /// The slot held for `token`, if any.
    pub fn get(&self, token: &Address) -> (r: Option<U256>)
        ensures
            r == slot_for(self@, *token),
    {
        let mut i: usize = self.entries.len();
        assert(self.entries@.take(i as int) =~= self.entries@);
        while i > 0
            invariant
                i <= self.entries.len(),
                slot_for(self@, *token) == slot_for(slots_of(self.entries@.take(i as int)), *token),
            decreases i,
        {
            i -= 1;
            let entry: SlotEntry = self.entries[i];
            assert(self.entries@.take(i + 1).drop_last() =~= self.entries@.take(i as int));
            if entry.token == *token {
                return Some(entry.slot);
            }
        }
        None
    }

    /// Whether a slot is held for `token`.
    pub fn contains(&self, token: &Address) -> (r: bool)
        ensures
            r == self@.contains_key(*token),
    {
        self.get(token).is_some()
    }

    /// Holds `slot` for `token` from now on, whatever was held before.
    pub fn insert(&mut self, token: Address, slot: U256)
        ensures
            final(self)@ == old(self)@.insert(token, slot),
    {
        self.entries.push(SlotEntry { token, slot });
        assert(self.entries@.drop_last() =~= old(self).entries@);
    }

    /// Holds `slot` for `token` unless a slot is held for it already.
    /// Returns the slot held for `token` afterwards.
    pub fn insert_if_absent(&mut self, token: Address, slot: U256) -> (held: U256)
        ensures
            final(self)@ == if old(self)@.contains_key(token) {
                old(self)@
            } else {
                old(self)@.insert(token, slot)
            },
            final(self)@.contains_key(token),
            held == final(self)@[token],
    {
        match self.get(&token) {
            Some(existing) => existing,
            None => {
                self.insert(token, slot);
                slot
            },
        }
    }

    /// Forgets every entry.
    pub fn clear(&mut self)
        ensures
            final(self)@ == Map::<Address, U256>::empty(),
    {
        self.entries.clear();
    }
}

} // verus!
