//! What crosses the boundary to the node: the block a simulation runs at,
//! the state it runs on, and what each call gave back.

use crate::address::Address;
use crate::model::{clone_interactions, Interaction, InteractionView};
use crate::u256::U256;
use vstd::prelude::*;

verus! {

/// The block that a simulation runs at.
#[derive(Clone, Copy, Debug, PartialEq, Eq, Structural, Hash)]
pub struct BlockContext {
    pub number: u64,
    pub hash: U256,
    pub timestamp: u64,
}

/// The most recent block that the block stream has published. Writers
/// overwrite it; readers take whatever is there and never wait.
#[derive(Clone, Copy, Debug, PartialEq, Eq, Structural)]
pub struct LatestBlock {
    pub block: BlockContext,
}

impl LatestBlock {
    /// A reader that starts out at `initial`.
    pub fn new(initial: BlockContext) -> (r: LatestBlock)
        ensures
            r.block == initial,
    {
        LatestBlock { block: initial }
    }

    /// Replaces the published block by `block`. Returns whether that changed
    /// what readers see.
    pub fn publish(&mut self, block: BlockContext) -> (changed: bool)
        ensures
            final(self).block == block,
            changed == (old(self).block != block),
    {
        let changed: bool = self.block != block;
        self.block = block;
        changed
    }

    /// The block published last.
    pub fn current(&self) -> (r: BlockContext)
        ensures
            r == self.block,
    {
        self.block
    }
}

/// Makes one storage slot of a contract read as `value`.
#[derive(Clone, Copy, Debug, PartialEq, Eq, Structural, Hash)]
pub struct StorageOverride {
    pub contract: Address,
    pub key: U256,
    pub value: U256,
}

/// Makes the native-currency balance of an account read as `balance`.
#[derive(Clone, Copy, Debug, PartialEq, Eq, Structural, Hash)]
pub struct AccountBalanceOverride {
    pub account: Address,
    pub balance: U256,
}

/// The state that a simulation sees in place of the real one.
#[derive(Debug, PartialEq, Eq)]
pub struct StateOverrides {
    pub storage: Vec<StorageOverride>,
    pub balances: Vec<AccountBalanceOverride>,
}

/// What a [`StateOverrides`] holds.
pub struct StateOverridesView {
    pub storage: Seq<StorageOverride>,
    pub balances: Seq<AccountBalanceOverride>,
}

impl View for StateOverrides {
    type V = StateOverridesView;

    open spec fn view(&self) -> StateOverridesView {
        StateOverridesView { storage: self.storage@, balances: self.balances@ }
    }
}

impl Clone for StateOverrides {
    fn clone(&self) -> (r: StateOverrides)
        ensures
            r@ == self@,
    {
        StateOverrides { storage: self.storage.clone(), balances: self.balances.clone() }
    }
}

impl StateOverrides {
    /// No override at all: the simulation sees the real state.
    pub fn new() -> (r: StateOverrides)
        ensures
            r@.storage == Seq::<StorageOverride>::empty(),
            r@.balances == Seq::<AccountBalanceOverride>::empty(),
    {
        StateOverrides { storage: Vec::new(), balances: Vec::new() }
    }
}

/// What one call of a simulated batch gave back. A revert is an ordinary
/// outcome, not a failure of the simulation.
#[derive(Debug, PartialEq, Eq)]
pub struct CallResult {
    pub reverted: bool,
    pub return_data: Vec<u8>,
    pub gas_used: u64,
}

/// What a [`CallResult`] holds.
pub struct CallResultView {
    pub reverted: bool,
    pub return_data: Seq<u8>,
    pub gas_used: u64,
}

impl View for CallResult {
    type V = CallResultView;

    open spec fn view(&self) -> CallResultView {
        CallResultView {
            reverted: self.reverted,
            return_data: self.return_data@,
            gas_used: self.gas_used,
        }
    }
}

impl DeepView for CallResult {
    type V = CallResultView;

    open spec fn deep_view(&self) -> CallResultView {
        self@
    }
}

impl Clone for CallResult {
    fn clone(&self) -> (r: CallResult)
        ensures
            r@ == self@,
    {
        CallResult {
            reverted: self.reverted,
            return_data: self.return_data.clone(),
            gas_used: self.gas_used,
        }
    }
}

/// Whether a call went through. Tokens that return nothing where the
/// standard asks for a boolean still count: only a revert is a failure.
pub fn call_succeeded(result: &CallResult) -> (r: bool)
    ensures
        r == !result@.reverted,
{
    !result.reverted
}

/// A batch of calls to run in order, atomically, on a disposable copy of the
/// state at `block` with `overrides` applied.
#[derive(Debug, PartialEq, Eq)]
pub struct SimulationRequest {
    pub calls: Vec<Interaction>,
    pub overrides: StateOverrides,
    pub block: BlockContext,
}

/// What a [`SimulationRequest`] holds.
pub struct SimulationRequestView {
    pub calls: Seq<InteractionView>,
    pub overrides: StateOverridesView,
    pub block: BlockContext,
}

impl View for SimulationRequest {
    type V = SimulationRequestView;

    open spec fn view(&self) -> SimulationRequestView {
        SimulationRequestView {
            calls: self.calls.deep_view(),
            overrides: self.overrides@,
            block: self.block,
        }
    }
}

impl Clone for SimulationRequest {
    fn clone(&self) -> (r: SimulationRequest)
        ensures
            r@ == self@,
    {
        SimulationRequest {
            calls: clone_interactions(&self.calls),
            overrides: self.overrides.clone(),
            block: self.block,
        }
    }
}

} // verus!
