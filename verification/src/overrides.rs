//! The balance override resolver: turns "this account must appear to hold
//! that much of a token" into a storage slot to overwrite, from a configured
//! slot or from one found by probing.

use crate::abi::{
    allowance_calldata, balance_of_calldata, decode_word, decoded_word, encode_allowance,
    encode_balance_of,
};
use crate::address::Address;
use crate::chain::{CallResult, CallResultView, StorageOverride};
use crate::hash::{mapping_key, mapping_slot, nested_mapping_key, nested_mapping_slot};
use crate::model::{Interaction, InteractionView};
use crate::slots::{SlotEntry, SlotMap};
use crate::u256::{lemma_u256_of_view, lemma_view_injective, u256_of, U256};
use vstd::prelude::*;

verus! {

/// The value written while probing for a slot. It is not zero, which is what
/// a token reports for an account it has never seen.
pub const PROBE_VALUE: u64 = 0x5eed_0b5e_55ed_ba1a;

/// Which of a token's mappings a slot is the base of.
#[derive(Clone, Copy, Debug, PartialEq, Eq, Structural, Hash)]
pub enum SlotKind {
    /// `holder => balance`.
    Balance,
    /// `owner => spender => allowance`.
    Allowance,
}

/// What an override makes appear.
#[derive(Clone, Copy, Debug, PartialEq, Eq, Structural, Hash)]
pub enum OverrideTarget {
    /// The token balance of `holder`.
    Balance { holder: Address },
    /// What `owner` allows `spender` to move.
    Allowance { owner: Address, spender: Address },
}

impl OverrideTarget {
    pub open spec fn spec_kind(&self) -> SlotKind {
        match self {
            OverrideTarget::Balance { .. } => SlotKind::Balance,
            OverrideTarget::Allowance { .. } => SlotKind::Allowance,
        }
    }

    /// The mapping that this target is an entry of.
    #[verifier::when_used_as_spec(spec_kind)]
    pub fn kind(&self) -> (r: SlotKind)
        ensures
            r == self.spec_kind(),
    {
        match self {
            OverrideTarget::Balance { .. } => SlotKind::Balance,
            OverrideTarget::Allowance { .. } => SlotKind::Allowance,
        }
    }
}

/// "`target` must appear to be `amount` of `token`."
#[derive(Clone, Copy, Debug, PartialEq, Eq, Structural, Hash)]
pub struct OverrideRequest {
    pub token: Address,
    pub target: OverrideTarget,
    pub amount: U256,
}

/// How the slot of one of a token's mappings is to be had.
#[derive(Clone, Copy, Debug, PartialEq, Eq, Structural, Hash)]
pub enum OverridePolicy {
    /// The operator has configured this slot.
    Explicit(U256),
    /// The slot is looked for by probing, once.
    AutoDetect,
    /// No override for this token.
    Disabled,
}

/// What is known of the slot of one of a token's mappings.
#[derive(Clone, Copy, Debug, PartialEq, Eq, Structural, Hash)]
pub enum SlotLookup {
    /// Configured, or detected earlier.
    Known(U256),
    /// Neither configured nor detected yet; detection is enabled.
    NeedsDetection,
    /// Not configured, and detection is disabled.
    Unavailable,
}

/// The configured slots, the slots detected so far, and how detection runs.
#[derive(Debug)]
pub struct BalanceOverrides {
    explicit_balances: SlotMap,
    explicit_allowances: SlotMap,
    detected_balances: SlotMap,
    detected_allowances: SlotMap,
    autodetect: bool,
    probe_bound: u64,
}

/// What a [`BalanceOverrides`] holds.
pub struct BalanceOverridesView {
    pub explicit_balances: Map<Address, U256>,
    pub explicit_allowances: Map<Address, U256>,
    pub detected_balances: Map<Address, U256>,
    pub detected_allowances: Map<Address, U256>,
    /// Whether slots that are not configured are looked for by probing.
    pub autodetect: bool,
    /// How many candidate slots, from 0 up, a detection tries.
    pub probe_bound: u64,
}

impl BalanceOverridesView {
    /// The configured slots of one kind.
    pub open spec fn explicit(&self, kind: SlotKind) -> Map<Address, U256> {
        match kind {
            SlotKind::Balance => self.explicit_balances,
            SlotKind::Allowance => self.explicit_allowances,
        }
    }

    /// The slots of one kind that detection has found so far.
    pub open spec fn detected(&self, kind: SlotKind) -> Map<Address, U256> {
        match kind {
            SlotKind::Balance => self.detected_balances,
            SlotKind::Allowance => self.detected_allowances,
        }
    }

    /// The policy for `token`'s mapping of kind `kind`: the configured slot
    /// where there is one, else detection where it is enabled.
    pub open spec fn policy(&self, kind: SlotKind, token: Address) -> OverridePolicy {
        if self.explicit(kind).contains_key(token) {
            OverridePolicy::Explicit(self.explicit(kind)[token])
        } else if self.autodetect {
            OverridePolicy::AutoDetect
        } else {
            OverridePolicy::Disabled
        }
    }

    /// What is known of the slot of `token`'s mapping of kind `kind`. A
    /// configured slot takes precedence over a detected one, and a detected
    /// one counts only while detection is the policy.
    pub open spec fn lookup(&self, kind: SlotKind, token: Address) -> SlotLookup {
        match self.policy(kind, token) {
            OverridePolicy::Explicit(slot) => SlotLookup::Known(slot),
            OverridePolicy::Disabled => SlotLookup::Unavailable,
            OverridePolicy::AutoDetect => if self.detected(kind).contains_key(token) {
                SlotLookup::Known(self.detected(kind)[token])
            } else {
                SlotLookup::NeedsDetection
            },
        }
    }

    /// The same as `self` but that `slot` has been detected for `token`,
    /// unless a slot had been detected for it before.
    pub open spec fn with_detected(&self, kind: SlotKind, token: Address, slot: U256) -> Self {
        if self.detected(kind).contains_key(token) {
            *self
        } else {
            match kind {
                SlotKind::Balance => BalanceOverridesView {
                    detected_balances: self.detected_balances.insert(token, slot),
                    ..*self
                },
                SlotKind::Allowance => BalanceOverridesView {
                    detected_allowances: self.detected_allowances.insert(token, slot),
                    ..*self
                },
            }
        }
    }

    /// `self` has the configuration of `earlier` and every slot that
    /// `earlier` had detected, unchanged.
    pub open spec fn extends(&self, earlier: Self) -> bool {
        &&& self.explicit_balances == earlier.explicit_balances
        &&& self.explicit_allowances == earlier.explicit_allowances
        &&& self.autodetect == earlier.autodetect
        &&& self.probe_bound == earlier.probe_bound
        &&& forall|token: Address| #[trigger]
            earlier.detected_balances.contains_key(token) ==> self.detected_balances.contains_key(
                token,
            ) && self.detected_balances[token] == earlier.detected_balances[token]
        &&& forall|token: Address| #[trigger]
            earlier.detected_allowances.contains_key(token)
                ==> self.detected_allowances.contains_key(token)
                && self.detected_allowances[token] == earlier.detected_allowances[token]
    }
}

/// `slots` with each of `entries` put in, in order: a later entry for a
/// token replaces an earlier one.
pub open spec fn with_entries(slots: Map<Address, U256>, entries: Seq<SlotEntry>) -> Map<
    Address,
    U256,
>
    decreases entries.len(),
{
    if entries.len() == 0 {
        slots
    } else {
        with_entries(slots, entries.drop_last()).insert(entries.last().token, entries.last().slot)
    }
}

impl View for BalanceOverrides {
    type V = BalanceOverridesView;

    closed spec fn view(&self) -> BalanceOverridesView {
        BalanceOverridesView {
            explicit_balances: self.explicit_balances@,
            explicit_allowances: self.explicit_allowances@,
            detected_balances: self.detected_balances@,
            detected_allowances: self.detected_allowances@,
            autodetect: self.autodetect,
            probe_bound: self.probe_bound,
        }
    }
}

impl Default for BalanceOverrides {
    /// No slot is configured and none is looked for.
    fn default() -> (r: BalanceOverrides)
        ensures
            r@.explicit_balances == Map::<Address, U256>::empty(),
            r@.explicit_allowances == Map::<Address, U256>::empty(),
            r@.detected_balances == Map::<Address, U256>::empty(),
            r@.detected_allowances == Map::<Address, U256>::empty(),
            !r@.autodetect,
            r@.probe_bound == 0,
    {
        BalanceOverrides::new(false, 0)
    }
}

impl BalanceOverrides {
    /// No slot is configured and none has been detected. Where `autodetect`
    /// holds, a detection tries the candidate slots below `probe_bound`.
    pub fn new(autodetect: bool, probe_bound: u64) -> (r: BalanceOverrides)
        ensures
            r@.explicit_balances == Map::<Address, U256>::empty(),
            r@.explicit_allowances == Map::<Address, U256>::empty(),
            r@.detected_balances == Map::<Address, U256>::empty(),
            r@.detected_allowances == Map::<Address, U256>::empty(),
            r@.autodetect == autodetect,
            r@.probe_bound == probe_bound,
    {
        BalanceOverrides {
            explicit_balances: SlotMap::new(),
            explicit_allowances: SlotMap::new(),
            detected_balances: SlotMap::new(),
            detected_allowances: SlotMap::new(),
            autodetect,
            probe_bound,
        }
    }

    /// Configures `slot` as the base slot of `token`'s mapping of kind `kind`.
    pub fn configure(&mut self, kind: SlotKind, token: Address, slot: U256)
        ensures
            final(self)@ == match kind {
                SlotKind::Balance => BalanceOverridesView {
                    explicit_balances: old(self)@.explicit_balances.insert(token, slot),
                    ..old(self)@
                },
                SlotKind::Allowance => BalanceOverridesView {
                    explicit_allowances: old(self)@.explicit_allowances.insert(token, slot),
                    ..old(self)@
                },
            },
    {
        match kind {
            SlotKind::Balance => self.explicit_balances.insert(token, slot),
            SlotKind::Allowance => self.explicit_allowances.insert(token, slot),
        }
    }

    /// Configures each of `entries` as the base slot of its token's mapping
    /// of kind `kind`, in order.
    pub fn configure_all(&mut self, kind: SlotKind, entries: &Vec<SlotEntry>)
        ensures
            final(self)@ == match kind {
                SlotKind::Balance => BalanceOverridesView {
                    explicit_balances: with_entries(old(self)@.explicit_balances, entries@),
                    ..old(self)@
                },
                SlotKind::Allowance => BalanceOverridesView {
                    explicit_allowances: with_entries(old(self)@.explicit_allowances, entries@),
                    ..old(self)@
                },
            },
    {
        let mut i: usize = 0;
        assert(entries@.take(0) =~= Seq::<SlotEntry>::empty());
        while i < entries.len()
            invariant
                i <= entries.len(),
                self@ == match kind {
                    SlotKind::Balance => BalanceOverridesView {
                        explicit_balances: with_entries(
                            old(self)@.explicit_balances,
                            entries@.take(i as int),
                        ),
                        ..old(self)@
                    },
                    SlotKind::Allowance => BalanceOverridesView {
                        explicit_allowances: with_entries(
                            old(self)@.explicit_allowances,
                            entries@.take(i as int),
                        ),
                        ..old(self)@
                    },
                },
            decreases entries.len() - i,
        {
            let entry: SlotEntry = entries[i];
            assert(entries@.take(i + 1).drop_last() =~= entries@.take(i as int));
            self.configure(kind, entry.token, entry.slot);
            i += 1;
        }
        assert(entries@.take(i as int) =~= entries@);
    }

    /// Whether slots that are not configured are looked for by probing.
    pub fn autodetect(&self) -> (r: bool)
        ensures
            r == self@.autodetect,
    {
        self.autodetect
    }

    /// How many candidate slots, from 0 up, a detection tries.
    pub fn probe_bound(&self) -> (r: u64)
        ensures
            r == self@.probe_bound,
    {
        self.probe_bound
    }

    /// The policy for `token`'s mapping of kind `kind`.
    pub fn policy(&self, kind: SlotKind, token: &Address) -> (r: OverridePolicy)
        ensures
            r == self@.policy(kind, *token),
    {
        let configured: Option<U256> = match kind {
            SlotKind::Balance => self.explicit_balances.get(token),
            SlotKind::Allowance => self.explicit_allowances.get(token),
        };
        match configured {
            Some(slot) => OverridePolicy::Explicit(slot),
            None => if self.autodetect {
                OverridePolicy::AutoDetect
            } else {
                OverridePolicy::Disabled
            },
        }
    }

    /// What is known of the slot of `token`'s mapping of kind `kind`.
    pub fn lookup(&self, kind: SlotKind, token: &Address) -> (r: SlotLookup)
        ensures
            r == self@.lookup(kind, *token),
    {
        match self.policy(kind, token) {
            OverridePolicy::Explicit(slot) => SlotLookup::Known(slot),
            OverridePolicy::Disabled => SlotLookup::Unavailable,
            OverridePolicy::AutoDetect => {
                let found: Option<U256> = match kind {
                    SlotKind::Balance => self.detected_balances.get(token),
                    SlotKind::Allowance => self.detected_allowances.get(token),
                };
                match found {
                    Some(slot) => SlotLookup::Known(slot),
                    None => SlotLookup::NeedsDetection,
                }
            },
        }
    }

    /// Remembers that detection found `slot` for `token`, unless a slot has
    /// been remembered for it already: the first one stays. Returns the slot
    /// that is remembered afterwards.
    pub fn record_detected(&mut self, kind: SlotKind, token: Address, slot: U256) -> (held: U256)
        ensures
            final(self)@ == old(self)@.with_detected(kind, token, slot),
            final(self)@.detected(kind).contains_key(token),
            held == final(self)@.detected(kind)[token],
    {
        match kind {
            SlotKind::Balance => self.detected_balances.insert_if_absent(token, slot),
            SlotKind::Allowance => self.detected_allowances.insert_if_absent(token, slot),
        }
    }

    /// Forgets every detected slot. The configuration stays.
    pub fn invalidate(&mut self)
        ensures
            final(self)@ == (BalanceOverridesView {
                detected_balances: Map::<Address, U256>::empty(),
                detected_allowances: Map::<Address, U256>::empty(),
                ..old(self)@
            }),
    {
        self.detected_balances.clear();
        self.detected_allowances.clear();
    }
}

/// The storage key of `target` in a token whose mapping has base slot `slot`.
pub open spec fn target_key(target: OverrideTarget, slot: U256) -> U256 {
    match target {
        OverrideTarget::Balance { holder } => u256_of(mapping_key(holder@, slot@)),
        OverrideTarget::Allowance { owner, spender } => u256_of(
            nested_mapping_key(owner@, spender@, slot@),
        ),
    }
}

/// The override that fulfils `request` in a token whose mapping has base slot `slot`.
pub open spec fn override_at(request: OverrideRequest, slot: U256) -> StorageOverride {
    StorageOverride {
        contract: request.token,
        key: target_key(request.target, slot),
        value: request.amount,
    }
}

/// The call that reads back what `target` currently is.
pub open spec fn probe_call(request: OverrideRequest) -> InteractionView {
    InteractionView {
        target: request.token,
        data: match request.target {
            OverrideTarget::Balance { holder } => balance_of_calldata(holder),
            OverrideTarget::Allowance { owner, spender } => allowance_calldata(owner, spender),
        },
        value: U256 { w3: 0, w2: 0, w1: 0, w0: 0 },
    }
}

/// The value that a probe writes, as a 256-bit number.
pub open spec fn probe_value() -> U256 {
    U256 { w3: 0, w2: 0, w1: 0, w0: PROBE_VALUE }
}

/// The candidate slot with index `candidate`.
pub open spec fn candidate_slot(candidate: u64) -> U256 {
    U256 { w3: 0, w2: 0, w1: 0, w0: candidate }
}

/// The write that tests whether `candidate` is the base slot: the probe
/// value, at the key that `request`'s target would have.
pub open spec fn probe_write(request: OverrideRequest, candidate: u64) -> StorageOverride {
    StorageOverride {
        contract: request.token,
        key: target_key(request.target, candidate_slot(candidate)),
        value: probe_value(),
    }
}

/// Whether what the read-back call returned shows that the probe's write
/// landed in the mapping: the call did not revert and returned exactly the
/// probe value.
pub open spec fn probe_hit(result: CallResultView) -> bool {
    !result.reverted && decoded_word(result.return_data) == Some(probe_value()@)
}

/// How a request is to be dealt with next.
#[derive(Debug)]
pub enum Resolution {
    /// The slot is known: apply this override.
    Ready(StorageOverride),
    /// The slot is to be detected: simulate `call` with `write` applied and
    /// hand what it returned to [`absorb_probe`].
    Probe { call: Interaction, write: StorageOverride },
    /// No override can be had for this request.
    Unavailable,
}

/// What a [`Resolution`] holds.
pub enum ResolutionView {
    Ready(StorageOverride),
    Probe { call: InteractionView, write: StorageOverride },
    Unavailable,
}

impl View for Resolution {
    type V = ResolutionView;

    open spec fn view(&self) -> ResolutionView {
        match self {
            Resolution::Ready(o) => ResolutionView::Ready(*o),
            Resolution::Probe { call, write } => ResolutionView::Probe {
                call: call@,
                write: *write,
            },
            Resolution::Unavailable => ResolutionView::Unavailable,
        }
    }
}

/// How `request` is to be dealt with when the candidates below `candidate`
/// have been probed in vain.
pub open spec fn resolution(
    overrides: BalanceOverridesView,
    request: OverrideRequest,
    candidate: u64,
) -> ResolutionView {
    match overrides.lookup(request.target.spec_kind(), request.token) {
        SlotLookup::Known(slot) => ResolutionView::Ready(override_at(request, slot)),
        SlotLookup::Unavailable => ResolutionView::Unavailable,
        SlotLookup::NeedsDetection => if candidate < overrides.probe_bound {
            ResolutionView::Probe {
                call: probe_call(request),
                write: probe_write(request, candidate),
            }
        } else {
            ResolutionView::Unavailable
        },
    }
}

/// The storage key of `target` in a token whose mapping has base slot `slot`.
pub fn storage_key(target: &OverrideTarget, slot: &U256) -> (r: U256)
    ensures
        r == target_key(*target, *slot),
{
    let key: U256 = match target {
        OverrideTarget::Balance { holder } => mapping_slot(&holder.to_word(), slot),
        OverrideTarget::Allowance { owner, spender } => nested_mapping_slot(
            &owner.to_word(),
            &spender.to_word(),
            slot,
        ),
    };
    proof {
        lemma_u256_of_view(key);
    }
    key
}

/// The override that fulfils `request` in a token whose mapping has base slot `slot`.
pub fn storage_override(request: &OverrideRequest, slot: &U256) -> (r: StorageOverride)
    ensures
        r == override_at(*request, *slot),
{
    StorageOverride {
        contract: request.token,
        key: storage_key(&request.target, slot),
        value: request.amount,
    }
}

/// How `request` is to be dealt with when the candidates below `candidate`
/// have been probed in vain: with the configured or detected slot where
/// there is one, else with a probe of `candidate` while detection is enabled
/// and `candidate` is below the bound, else not at all.
pub fn resolve(overrides: &BalanceOverrides, request: &OverrideRequest, candidate: u64) -> (r:
    Resolution)
    ensures
        r@ == resolution(overrides@, *request, candidate),
{
    match overrides.lookup(request.target.kind(), &request.token) {
        SlotLookup::Known(slot) => Resolution::Ready(storage_override(request, &slot)),
        SlotLookup::Unavailable => Resolution::Unavailable,
        SlotLookup::NeedsDetection => {
            if candidate < overrides.probe_bound() {
                let data: Vec<u8> = match request.target {
                    OverrideTarget::Balance { holder } => encode_balance_of(&holder),
                    OverrideTarget::Allowance { owner, spender } => encode_allowance(
                        &owner,
                        &spender,
                    ),
                };
                let call = Interaction { target: request.token, data, value: U256::zero() };
                let write = StorageOverride {
                    contract: request.token,
                    key: storage_key(&request.target, &U256::from_u64(candidate)),
                    value: U256::from_u64(PROBE_VALUE),
                };
                Resolution::Probe { call, write }
            } else {
                Resolution::Unavailable
            }
        },
    }
}

/// Whether what the read-back call returned shows that the probe's write
/// landed in the mapping.
pub fn probe_matches(result: &CallResult) -> (r: bool)
    ensures
        r == probe_hit(result@),
{
    if result.reverted {
        return false;
    }
    match decode_word(result.return_data.as_slice()) {
        Some(value) => {
            let expected: U256 = U256::from_u64(PROBE_VALUE);
            proof {
                lemma_view_injective(value, expected);
            }
            value == expected
        },
        None => false,
    }
}

/// The candidate to go on with after the probe of `candidate` returned `result`.
pub open spec fn next_candidate(candidate: u64, result: CallResultView) -> u64 {
    if probe_hit(result) || candidate == u64::MAX {
        candidate
    } else {
        (candidate + 1) as u64
    }
}

/// What is known after the probe of `candidate` for `request` returned `result`.
pub open spec fn after_probe(
    overrides: BalanceOverridesView,
    request: OverrideRequest,
    candidate: u64,
    result: CallResultView,
) -> BalanceOverridesView {
    if probe_hit(result) {
        overrides.with_detected(request.target.spec_kind(), request.token, candidate_slot(candidate))
    } else {
        overrides
    }
}

/// Takes in what the probe of `candidate` for `request` returned. On a hit
/// the candidate is remembered as the token's slot, unless one is remembered
/// already, and stays the candidate; on a miss the next candidate is up.
pub fn absorb_probe(
    overrides: &mut BalanceOverrides,
    request: &OverrideRequest,
    candidate: u64,
    result: &CallResult,
) -> (next: u64)
    ensures
        final(overrides)@ == after_probe(old(overrides)@, *request, candidate, result@),
        next == next_candidate(candidate, result@),
{
    if probe_matches(result) {
        let slot: U256 = U256::from_u64(candidate);
        overrides.record_detected(request.target.kind(), request.token, slot);
        candidate
    } else if candidate == u64::MAX {
        candidate
    } else {
        candidate + 1
    }
}

} // verus!
