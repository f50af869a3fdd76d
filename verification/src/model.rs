//! The values that enter and leave a verification: the query, its trading
//! context, the claimed trade and the resulting estimate.

use crate::address::Address;
use crate::u256::U256;
use vstd::prelude::*;

verus! {

/// Which side of the trade the user fixed.
#[derive(Clone, Copy, Debug, PartialEq, Eq, Structural, Hash)]
pub enum OrderKind {
    /// The user fixed the amount sold; the trade states the amount bought.
    Sell,
    /// The user fixed the amount bought; the trade states the amount sold.
    Buy,
}

/// Where the sold funds are taken from.
#[derive(Clone, Copy, Debug, PartialEq, Eq, Structural, Hash)]
pub enum SellTokenSource {
    /// A direct token transfer from the trader.
    Erc20,
    /// The trader's token balance, moved by the vault.
    External,
    /// The trader's balance held inside the vault.
    Internal,
}

/// Where the bought funds are delivered to.
#[derive(Clone, Copy, Debug, PartialEq, Eq, Structural, Hash)]
pub enum BuyTokenDestination {
    /// A direct token transfer to the receiver.
    Erc20,
    /// The receiver's balance held inside the vault.
    Internal,
}

/// What the user asks a price for.
#[derive(Clone, Copy, Debug, PartialEq, Eq, Structural, Hash)]
pub struct PriceQuery {
    pub sell_token: Address,
    pub buy_token: Address,
    pub kind: OrderKind,
    /// The amount of the side the user fixed. Never zero.
    pub in_amount: U256,
}

impl PriceQuery {
    /// The fixed amount is positive.
    pub open spec fn wf(&self) -> bool {
        self.in_amount@ > 0
    }

    /// Whether the fixed amount is positive.
    pub fn is_valid(&self) -> (r: bool)
        ensures
            r == self.wf(),
    {
        !self.in_amount.is_zero()
    }
}

/// One on-chain call. Its data is opaque to the engine.
#[derive(Debug, PartialEq, Eq)]
pub struct Interaction {
    pub target: Address,
    pub data: Vec<u8>,
    /// The amount of native currency sent along.
    pub value: U256,
}

/// What an [`Interaction`] holds.
pub struct InteractionView {
    pub target: Address,
    pub data: Seq<u8>,
    pub value: U256,
}

impl View for Interaction {
    type V = InteractionView;

    open spec fn view(&self) -> InteractionView {
        InteractionView { target: self.target, data: self.data@, value: self.value }
    }
}

impl DeepView for Interaction {
    type V = InteractionView;

    open spec fn deep_view(&self) -> InteractionView {
        self@
    }
}

impl Clone for Interaction {
    fn clone(&self) -> (r: Interaction)
        ensures
            r@ == self@,
    {
        Interaction { target: self.target, data: self.data.clone(), value: self.value }
    }
}

/// A copy of a list of interactions, in the same order.
pub fn clone_interactions(list: &Vec<Interaction>) -> (r: Vec<Interaction>)
    ensures
        r.deep_view() == list.deep_view(),
{
    let mut out: Vec<Interaction> = Vec::new();
    let mut i: usize = 0;
    while i < list.len()
        invariant
            i <= list.len(),
            out.len() == i,
            forall|k: int| 0 <= k < i ==> out[k]@ == list[k]@,
        decreases list.len() - i,
    {
        out.push(list[i].clone());
        i += 1;
    }
    assert(out.deep_view() =~= list.deep_view());
    out
}

/// Appends a copy of `list` to `out`, keeping the order of both.
pub fn extend_interactions(out: &mut Vec<Interaction>, list: &Vec<Interaction>)
    ensures
        final(out).deep_view() == old(out).deep_view() + list.deep_view(),
{
    let mut i: usize = 0;
    while i < list.len()
        invariant
            i <= list.len(),
            out.len() == old(out).len() + i,
            forall|k: int| 0 <= k < old(out).len() ==> out[k]@ == old(out)[k]@,
            forall|k: int| 0 <= k < i ==> out[old(out).len() + k]@ == list[k]@,
        decreases list.len() - i,
    {
        out.push(list[i].clone());
        i += 1;
    }
    assert(out.deep_view() =~= old(out).deep_view() + list.deep_view());
}

/// The trading context, independent of the trade that is claimed.
#[derive(Debug, PartialEq, Eq)]
pub struct Verification {
    pub trader: Address,
    /// Who receives the bought funds; the trader where absent.
    pub receiver: Option<Address>,
    pub pre_interactions: Vec<Interaction>,
    pub post_interactions: Vec<Interaction>,
    pub sell_token_source: SellTokenSource,
    pub buy_token_destination: BuyTokenDestination,
}

/// What a [`Verification`] holds.
pub struct VerificationView {
    pub trader: Address,
    pub receiver: Option<Address>,
    pub pre_interactions: Seq<InteractionView>,
    pub post_interactions: Seq<InteractionView>,
    pub sell_token_source: SellTokenSource,
    pub buy_token_destination: BuyTokenDestination,
}

impl VerificationView {
    /// Who receives the bought funds.
    pub open spec fn effective_receiver(&self) -> Address {
        match self.receiver {
            Some(receiver) => receiver,
            None => self.trader,
        }
    }
}

impl View for Verification {
    type V = VerificationView;

    open spec fn view(&self) -> VerificationView {
        VerificationView {
            trader: self.trader,
            receiver: self.receiver,
            pre_interactions: self.pre_interactions.deep_view(),
            post_interactions: self.post_interactions.deep_view(),
            sell_token_source: self.sell_token_source,
            buy_token_destination: self.buy_token_destination,
        }
    }
}

impl Clone for Verification {
    fn clone(&self) -> (r: Verification)
        ensures
            r@ == self@,
    {
        Verification {
            trader: self.trader,
            receiver: self.receiver,
            pre_interactions: clone_interactions(&self.pre_interactions),
            post_interactions: clone_interactions(&self.post_interactions),
            sell_token_source: self.sell_token_source,
            buy_token_destination: self.buy_token_destination,
        }
    }
}

impl Verification {
    /// Who receives the bought funds: the named receiver, else the trader.
    pub fn effective_receiver(&self) -> (r: Address)
        ensures
            r == self@.effective_receiver(),
    {
        match self.receiver {
            Some(receiver) => receiver,
            None => self.trader,
        }
    }
}

/// A trade executed by a fixed list of calls that the solver names.
#[derive(Debug, PartialEq, Eq)]
pub struct LegacyTrade {
    /// The amount of the side the user did not fix.
    pub out_amount: U256,
    pub gas_estimate: Option<u64>,
    pub interactions: Vec<Interaction>,
    pub solver: Address,
    pub tx_origin: Option<Address>,
}

/// What a [`LegacyTrade`] holds.
pub struct LegacyTradeView {
    pub out_amount: U256,
    pub gas_estimate: Option<u64>,
    pub interactions: Seq<InteractionView>,
    pub solver: Address,
    pub tx_origin: Option<Address>,
}

impl View for LegacyTrade {
    type V = LegacyTradeView;

    open spec fn view(&self) -> LegacyTradeView {
        LegacyTradeView {
            out_amount: self.out_amount,
            gas_estimate: self.gas_estimate,
            interactions: self.interactions.deep_view(),
            solver: self.solver,
            tx_origin: self.tx_origin,
        }
    }
}

impl Clone for LegacyTrade {
    fn clone(&self) -> (r: LegacyTrade)
        ensures
            r@ == self@,
    {
        LegacyTrade {
            out_amount: self.out_amount,
            gas_estimate: self.gas_estimate,
            interactions: clone_interactions(&self.interactions),
            solver: self.solver,
            tx_origin: self.tx_origin,
        }
    }
}

/// An order that a solver adds to a settlement of its own accord.
#[derive(Clone, Copy, Debug, PartialEq, Eq, Structural, Hash)]
pub struct JitOrder {
    pub owner: Address,
    pub sell_token: Address,
    pub buy_token: Address,
    pub sell_amount: U256,
    pub buy_amount: U256,
    pub kind: OrderKind,
}

/// How a claimed trade would be executed on-chain.
#[derive(Debug, PartialEq, Eq)]
pub enum TradeKind {
    Legacy(LegacyTrade),
}

/// What a [`TradeKind`] holds.
pub enum TradeKindView {
    Legacy(LegacyTradeView),
}

impl View for TradeKind {
    type V = TradeKindView;

    open spec fn view(&self) -> TradeKindView {
        match self {
            TradeKind::Legacy(trade) => TradeKindView::Legacy(trade@),
        }
    }
}

impl Clone for TradeKind {
    fn clone(&self) -> (r: TradeKind)
        ensures
            r@ == self@,
    {
        match self {
            TradeKind::Legacy(trade) => TradeKind::Legacy(trade.clone()),
        }
    }
}

impl TradeKindView {
    /// The claimed amount of the side the user did not fix.
    pub open spec fn out_amount(&self) -> U256 {
        match self {
            TradeKindView::Legacy(trade) => trade.out_amount,
        }
    }

    pub open spec fn gas_estimate(&self) -> Option<u64> {
        match self {
            TradeKindView::Legacy(trade) => trade.gas_estimate,
        }
    }

    pub open spec fn solver(&self) -> Address {
        match self {
            TradeKindView::Legacy(trade) => trade.solver,
        }
    }

    pub open spec fn tx_origin(&self) -> Option<Address> {
        match self {
            TradeKindView::Legacy(trade) => trade.tx_origin,
        }
    }

    /// The calls that make up the swap itself.
    pub open spec fn interactions(&self) -> Seq<InteractionView> {
        match self {
            TradeKindView::Legacy(trade) => trade.interactions,
        }
    }

    /// The orders the solver adds of its own accord.
    pub open spec fn jit_orders(&self) -> Seq<JitOrder> {
        match self {
            TradeKindView::Legacy(_) => Seq::empty(),
        }
    }

    /// The claimed amount is positive.
    pub open spec fn wf(&self) -> bool {
        self.out_amount()@ > 0
    }
}

impl TradeKind {
    /// The claimed amount of the side the user did not fix.
    pub fn out_amount(&self) -> (r: U256)
        ensures
            r == self@.out_amount(),
    {
        match self {
            TradeKind::Legacy(trade) => trade.out_amount,
        }
    }

    pub fn gas_estimate(&self) -> (r: Option<u64>)
        ensures
            r == self@.gas_estimate(),
    {
        match self {
            TradeKind::Legacy(trade) => trade.gas_estimate,
        }
    }

    pub fn solver(&self) -> (r: Address)
        ensures
            r == self@.solver(),
    {
        match self {
            TradeKind::Legacy(trade) => trade.solver,
        }
    }

    pub fn tx_origin(&self) -> (r: Option<Address>)
        ensures
            r == self@.tx_origin(),
    {
        match self {
            TradeKind::Legacy(trade) => trade.tx_origin,
        }
    }

    /// The calls that make up the swap itself.
    pub fn interactions(&self) -> (r: &Vec<Interaction>)
        ensures
            r.deep_view() == self@.interactions(),
    {
        match self {
            TradeKind::Legacy(trade) => &trade.interactions,
        }
    }

    /// The orders the solver adds of its own accord.
    pub fn jit_orders(&self) -> (r: Vec<JitOrder>)
        ensures
            r@ == self@.jit_orders(),
    {
        match self {
            TradeKind::Legacy(_) => Vec::new(),
        }
    }

    /// Whether the claimed amount is positive.
    pub fn is_valid(&self) -> (r: bool)
        ensures
            r == self@.wf(),
    {
        !self.out_amount().is_zero()
    }
}

/// The calls that an estimate rests on.
#[derive(Debug, PartialEq, Eq)]
pub struct QuoteExecution {
    pub interactions: Vec<Interaction>,
    pub pre_interactions: Vec<Interaction>,
    pub jit_orders: Vec<JitOrder>,
}

/// What a [`QuoteExecution`] holds.
pub struct QuoteExecutionView {
    pub interactions: Seq<InteractionView>,
    pub pre_interactions: Seq<InteractionView>,
    pub jit_orders: Seq<JitOrder>,
}

impl View for QuoteExecution {
    type V = QuoteExecutionView;

    open spec fn view(&self) -> QuoteExecutionView {
        QuoteExecutionView {
            interactions: self.interactions.deep_view(),
            pre_interactions: self.pre_interactions.deep_view(),
            jit_orders: self.jit_orders@,
        }
    }
}

impl Clone for QuoteExecution {
    fn clone(&self) -> (r: QuoteExecution)
        ensures
            r@ == self@,
    {
        QuoteExecution {
            interactions: clone_interactions(&self.interactions),
            pre_interactions: clone_interactions(&self.pre_interactions),
            jit_orders: self.jit_orders.clone(),
        }
    }
}

/// The outcome of a verification.
#[derive(Debug, PartialEq, Eq)]
pub struct Estimate {
    pub out_amount: U256,
    pub gas: u64,
    pub solver: Address,
    /// Whether a simulation corroborated the claim, or the claim was exempt
    /// from simulation.
    pub verified: bool,
    pub execution: QuoteExecution,
}

/// What an [`Estimate`] holds.
pub struct EstimateView {
    pub out_amount: U256,
    pub gas: u64,
    pub solver: Address,
    pub verified: bool,
    pub execution: QuoteExecutionView,
}

impl View for Estimate {
    type V = EstimateView;

    open spec fn view(&self) -> EstimateView {
        EstimateView {
            out_amount: self.out_amount,
            gas: self.gas,
            solver: self.solver,
            verified: self.verified,
            execution: self.execution@,
        }
    }
}

impl Clone for Estimate {
    fn clone(&self) -> (r: Estimate)
        ensures
            r@ == self@,
    {
        Estimate {
            out_amount: self.out_amount,
            gas: self.gas,
            solver: self.solver,
            verified: self.verified,
            execution: self.execution.clone(),
        }
    }
}

/// Why a verification produced no estimate: the simulation infrastructure
/// failed. Every one of these is transient; the same request may succeed
/// later. A simulation that ran and reverted is no error.
#[derive(Clone, Copy, Debug, PartialEq, Eq, Structural, Hash)]
pub enum VerificationError {
    /// The node could not be reached.
    NodeUnreachable,
    /// The node did not answer in time.
    Timeout,
    /// The node's answer does not fit what it was asked.
    MalformedResponse,
    /// The node refused the state overrides.
    MalformedOverrides,
}

impl VerificationError {
    /// What went wrong, in words.
    pub fn message(&self) -> (r: &'static str)
        ensures
            r@ == match self {
                VerificationError::NodeUnreachable => "node unreachable"@,
                VerificationError::Timeout => "simulation timed out"@,
                VerificationError::MalformedResponse => "malformed response from node"@,
                VerificationError::MalformedOverrides => "node refused the state overrides"@,
            },
    {
        match self {
            VerificationError::NodeUnreachable => "node unreachable",
            VerificationError::Timeout => "simulation timed out",
            VerificationError::MalformedResponse => "malformed response from node",
            VerificationError::MalformedOverrides => "node refused the state overrides",
        }
    }
}

} // verus!
