use trade_verifier::abi::{encode_transfer, encode_transfer_from};
use trade_verifier::address::Address;
use trade_verifier::model::{
    clone_interactions, extend_interactions, BuyTokenDestination, Interaction, LegacyTrade,
    OrderKind, PriceQuery, SellTokenSource, TradeKind, Verification,
};
use trade_verifier::sequencer::{sequence, trade_buy_amount, trade_sell_amount};
use trade_verifier::u256::U256;

fn addr(n: u64) -> Address {
    Address { hi: 0, mid: 0, lo: n }
}

const SELL: u64 = 0x5e11;
const BUY: u64 = 0xb0b;
const SETTLEMENT: u64 = 0x9008;
const TRADER: u64 = 0x7ade;
const OTHER: u64 = 0x07e2;

fn call(tag: u8) -> Interaction {
    Interaction { target: addr(tag as u64), data: vec![tag, tag], value: U256::from_u64(tag as u64) }
}

fn query(kind: OrderKind) -> PriceQuery {
    PriceQuery { sell_token: addr(SELL), buy_token: addr(BUY), kind, in_amount: U256::from_u64(12) }
}

fn verification(trader: u64, receiver: Option<u64>) -> Verification {
    Verification {
        trader: addr(trader),
        receiver: receiver.map(addr),
        pre_interactions: vec![call(1), call(2)],
        post_interactions: vec![call(8), call(9)],
        sell_token_source: SellTokenSource::Erc20,
        buy_token_destination: BuyTokenDestination::Erc20,
    }
}

fn trade() -> TradeKind {
    TradeKind::Legacy(LegacyTrade {
        out_amount: U256::from_u64(700),
        gas_estimate: Some(225000),
        interactions: vec![call(4), call(5), call(4)],
        solver: addr(0x501),
        tx_origin: None,
    })
}

fn transfer_in(from: u64, amount: u64) -> Interaction {
    Interaction {
        target: addr(SELL),
        data: encode_transfer_from(&addr(from), &addr(SETTLEMENT), &U256::from_u64(amount)),
        value: U256::zero(),
    }
}

fn transfer_out(to: u64, amount: u64) -> Interaction {
    Interaction {
        target: addr(BUY),
        data: encode_transfer(&addr(to), &U256::from_u64(amount)),
        value: U256::zero(),
    }
}

#[test]
fn receiver_defaults_to_the_trader() {
    assert_eq!(verification(TRADER, None).effective_receiver(), addr(TRADER));
    assert_eq!(verification(TRADER, Some(OTHER)).effective_receiver(), addr(OTHER));
}

#[test]
fn amounts_follow_the_side_the_user_fixed() {
    assert_eq!(trade_sell_amount(&query(OrderKind::Sell), &trade()), U256::from_u64(12));
    assert_eq!(trade_buy_amount(&query(OrderKind::Sell), &trade()), U256::from_u64(700));
    assert_eq!(trade_sell_amount(&query(OrderKind::Buy), &trade()), U256::from_u64(700));
    assert_eq!(trade_buy_amount(&query(OrderKind::Buy), &trade()), U256::from_u64(12));
}

#[test]
fn copies_keep_order_and_duplicates() {
    let list = vec![call(3), call(1), call(3), call(2)];
    assert_eq!(clone_interactions(&list), list);
    let mut out = vec![call(9)];
    extend_interactions(&mut out, &list);
    assert_eq!(out, vec![call(9), call(3), call(1), call(3), call(2)]);
}

#[test]
fn third_party_trade_is_wrapped_in_both_transfers() {
    let batch = sequence(
        &query(OrderKind::Sell),
        &verification(TRADER, None),
        &trade(),
        &addr(SETTLEMENT),
    );
    assert_eq!(
        batch,
        vec![
            call(1),
            call(2),
            transfer_in(TRADER, 12),
            call(4),
            call(5),
            call(4),
            transfer_out(TRADER, 700),
            call(8),
            call(9),
        ]
    );
}

#[test]
fn buy_order_moves_the_claimed_amount_in_and_the_fixed_amount_out() {
    let batch = sequence(
        &query(OrderKind::Buy),
        &verification(TRADER, Some(OTHER)),
        &trade(),
        &addr(SETTLEMENT),
    );
    assert_eq!(batch[2], transfer_in(TRADER, 700));
    assert_eq!(batch[6], transfer_out(OTHER, 12));
    assert_eq!(batch.len(), 9);
}

#[test]
fn settlement_as_trader_and_implicit_receiver_adds_no_transfer() {
    let batch = sequence(
        &query(OrderKind::Sell),
        &verification(SETTLEMENT, None),
        &trade(),
        &addr(SETTLEMENT),
    );
    assert_eq!(batch, vec![call(1), call(2), call(4), call(5), call(4), call(8), call(9)]);
}

#[test]
fn settlement_as_trader_and_explicit_receiver_adds_no_transfer() {
    let batch = sequence(
        &query(OrderKind::Sell),
        &verification(SETTLEMENT, Some(SETTLEMENT)),
        &trade(),
        &addr(SETTLEMENT),
    );
    assert_eq!(batch, vec![call(1), call(2), call(4), call(5), call(4), call(8), call(9)]);
}

#[test]
fn settlement_as_trader_with_third_party_receiver_only_transfers_out() {
    let batch = sequence(
        &query(OrderKind::Sell),
        &verification(SETTLEMENT, Some(OTHER)),
        &trade(),
        &addr(SETTLEMENT),
    );
    assert_eq!(
        batch,
        vec![
            call(1),
            call(2),
            call(4),
            call(5),
            call(4),
            transfer_out(OTHER, 700),
            call(8),
            call(9),
        ]
    );
}

#[test]
fn third_party_trader_with_settlement_as_receiver_only_transfers_in() {
    let batch = sequence(
        &query(OrderKind::Sell),
        &verification(TRADER, Some(SETTLEMENT)),
        &trade(),
        &addr(SETTLEMENT),
    );
    assert_eq!(
        batch,
        vec![
            call(1),
            call(2),
            transfer_in(TRADER, 12),
            call(4),
            call(5),
            call(4),
            call(8),
            call(9),
        ]
    );
}

#[test]
fn empty_lists_leave_only_the_transfers() {
    let context = Verification {
        trader: addr(TRADER),
        receiver: None,
        pre_interactions: vec![],
        post_interactions: vec![],
        sell_token_source: SellTokenSource::Erc20,
        buy_token_destination: BuyTokenDestination::Erc20,
    };
    let claim = TradeKind::Legacy(LegacyTrade {
        out_amount: U256::from_u64(700),
        gas_estimate: None,
        interactions: vec![],
        solver: addr(0x501),
        tx_origin: None,
    });
    let batch = sequence(&query(OrderKind::Sell), &context, &claim, &addr(SETTLEMENT));
    assert_eq!(batch, vec![transfer_in(TRADER, 12), transfer_out(TRADER, 700)]);
}

#[test]
fn trade_accessors_read_the_claim() {
    let claim = trade();
    assert_eq!(claim.out_amount(), U256::from_u64(700));
    assert_eq!(claim.gas_estimate(), Some(225000));
    assert_eq!(claim.solver(), addr(0x501));
    assert_eq!(claim.tx_origin(), None);
    assert_eq!(claim.interactions(), &vec![call(4), call(5), call(4)]);
    assert!(claim.jit_orders().is_empty());
    assert!(claim.is_valid());
    assert!(query(OrderKind::Sell).is_valid());
    let empty = PriceQuery { in_amount: U256::zero(), ..query(OrderKind::Sell) };
    assert!(!empty.is_valid());
}
