//! The interaction sequencer: puts the calls of one settlement in the order
//! in which the settlement contract runs them.

use crate::abi::{
    encode_transfer, encode_transfer_from, transfer_calldata, transfer_from_calldata,
};
use crate::address::Address;
use crate::model::{
    clone_interactions, extend_interactions, Interaction, InteractionView, OrderKind, PriceQuery,
    TradeKind, TradeKindView, Verification, VerificationView,
};
use crate::u256::U256;
use vstd::prelude::*;

verus! {

/// The amount of the sell token that the trade moves.
pub open spec fn sell_amount(query: PriceQuery, trade: TradeKindView) -> U256 {
    match query.kind {
        OrderKind::Sell => query.in_amount,
        OrderKind::Buy => trade.out_amount(),
    }
}

/// The amount of the buy token that the trade moves.
pub open spec fn buy_amount(query: PriceQuery, trade: TradeKindView) -> U256 {
    match query.kind {
        OrderKind::Sell => trade.out_amount(),
        OrderKind::Buy => query.in_amount,
    }
}

/// The step that moves the sold funds from the trader into the settlement
/// contract. There is none where the trader is the contract itself, which
/// holds the funds already.
pub open spec fn transfer_in(
    query: PriceQuery,
    verification: VerificationView,
    trade: TradeKindView,
    settlement: Address,
) -> Seq<InteractionView> {
    if verification.trader == settlement {
        Seq::empty()
    } else {
        seq![
            InteractionView {
                target: query.sell_token,
                data: transfer_from_calldata(
                    verification.trader,
                    settlement,
                    sell_amount(query, trade),
                ),
                value: U256 { w3: 0, w2: 0, w1: 0, w0: 0 },
            },
        ]
    }
}

/// The step that moves the bought funds from the settlement contract to the
/// receiver. There is none where the receiver is the contract itself: the
/// funds stay in its custody.
pub open spec fn transfer_out(
    query: PriceQuery,
    verification: VerificationView,
    trade: TradeKindView,
    settlement: Address,
) -> Seq<InteractionView> {
    if verification.effective_receiver() == settlement {
        Seq::empty()
    } else {
        seq![
            InteractionView {
                target: query.buy_token,
                data: transfer_calldata(verification.effective_receiver(), buy_amount(query, trade)),
                value: U256 { w3: 0, w2: 0, w1: 0, w0: 0 },
            },
        ]
    }
}

/// The calls of one settlement, in execution order: the pre-interactions,
/// the transfer in, the trade's own interactions, the transfer out, the
/// post-interactions. Each list keeps its order and nothing is dropped.
pub open spec fn call_batch(
    query: PriceQuery,
    verification: VerificationView,
    trade: TradeKindView,
    settlement: Address,
) -> Seq<InteractionView> {
    verification.pre_interactions + transfer_in(query, verification, trade, settlement)
        + trade.interactions() + transfer_out(query, verification, trade, settlement)
        + verification.post_interactions
}

/// The amount of the sell token that the trade moves.
pub fn trade_sell_amount(query: &PriceQuery, trade: &TradeKind) -> (r: U256)
    ensures
        r == sell_amount(*query, trade@),
{
    match query.kind {
        OrderKind::Sell => query.in_amount,
        OrderKind::Buy => trade.out_amount(),
    }
}

/// The amount of the buy token that the trade moves.
pub fn trade_buy_amount(query: &PriceQuery, trade: &TradeKind) -> (r: U256)
    ensures
        r == buy_amount(*query, trade@),
{
    match query.kind {
        OrderKind::Sell => trade.out_amount(),
        OrderKind::Buy => query.in_amount,
    }
}

/// Assembles the calls of one settlement in execution order. The call data
/// of the given interactions is copied as it is, never read.
pub fn sequence(
    query: &PriceQuery,
    verification: &Verification,
    trade: &TradeKind,
    settlement: &Address,
) -> (r: Vec<Interaction>)
    ensures
        r.deep_view() == call_batch(*query, verification@, trade@, *settlement),
{
    let mut out: Vec<Interaction> = clone_interactions(&verification.pre_interactions);
    let ghost pre = out.deep_view();
    if verification.trader != *settlement {
        let amount: U256 = trade_sell_amount(query, trade);
        let step = Interaction {
            target: query.sell_token,
            data: encode_transfer_from(&verification.trader, settlement, &amount),
            value: U256::zero(),
        };
        out.push(step);
    }
    assert(out.deep_view() =~= pre + transfer_in(*query, verification@, trade@, *settlement));
    extend_interactions(&mut out, trade.interactions());
    let ghost swapped = out.deep_view();
    let receiver: Address = verification.effective_receiver();
    if receiver != *settlement {
        let amount: U256 = trade_buy_amount(query, trade);
        let step = Interaction {
            target: query.buy_token,
            data: encode_transfer(&receiver, &amount),
            value: U256::zero(),
        };
        out.push(step);
    }
    assert(out.deep_view() =~= swapped + transfer_out(*query, verification@, trade@, *settlement));
    extend_interactions(&mut out, &verification.post_interactions);
    out
}

} // verus!
