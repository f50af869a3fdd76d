use trade_verifier::address::Address;
use trade_verifier::chain::{call_succeeded, BlockContext, CallResult, LatestBlock};
use trade_verifier::model::{
    BuyTokenDestination, Estimate, Interaction, LegacyTrade, OrderKind, QuoteExecution,
    SellTokenSource, TradeKind, Verification, VerificationError,
};
use trade_verifier::reconciler::{
    echo_claim, gas_between, has_revert, into_execution, measure_amount, reconcile, summarize,
    ReconcilerConfig, SimulationSummary, Tolerance,
};
use trade_verifier::u256::U256;

fn addr(n: u64) -> Address {
    Address { hi: 0, mid: 0, lo: n }
}

fn call(tag: u8) -> Interaction {
    Interaction { target: addr(tag as u64), data: vec![tag], value: U256::zero() }
}

fn verification() -> Verification {
    Verification {
        trader: addr(1),
        receiver: None,
        pre_interactions: vec![call(1)],
        post_interactions: vec![call(9)],
        sell_token_source: SellTokenSource::Erc20,
        buy_token_destination: BuyTokenDestination::Erc20,
    }
}

fn trade(out_amount: u64, gas_estimate: Option<u64>) -> TradeKind {
    TradeKind::Legacy(LegacyTrade {
        out_amount: U256::from_u64(out_amount),
        gas_estimate,
        interactions: vec![call(4), call(5)],
        solver: addr(0x501),
        tx_origin: None,
    })
}

fn execution() -> QuoteExecution {
    QuoteExecution {
        interactions: vec![call(4), call(5)],
        pre_interactions: vec![call(1)],
        jit_orders: vec![],
    }
}

fn estimate(out_amount: u64, gas: u64, verified: bool) -> Estimate {
    Estimate {
        out_amount: U256::from_u64(out_amount),
        gas,
        solver: addr(0x501),
        verified,
        execution: execution(),
    }
}

fn config(prefer_measured: bool, numerator: u64, denominator: u64) -> ReconcilerConfig {
    ReconcilerConfig {
        prefer_measured,
        tolerance: Tolerance::new(numerator, denominator).unwrap(),
    }
}

fn ok(measured: u64, gas_used: u64) -> SimulationSummary {
    SimulationSummary { reverted: false, out_amount: Some(U256::from_u64(measured)), gas_used }
}

fn result(reverted: bool, word: Option<u64>, gas_used: u64) -> CallResult {
    CallResult {
        reverted,
        return_data: match word {
            Some(v) => U256::from_u64(v).to_be_bytes(),
            None => vec![],
        },
        gas_used,
    }
}

fn word(v: u64) -> Vec<u8> {
    U256::from_u64(v).to_be_bytes()
}

#[test]
fn tolerance_needs_a_denominator() {
    assert_eq!(Tolerance::new(1, 0), None);
    let t = Tolerance::new(3, 100).unwrap();
    assert_eq!(t.numerator(), 3);
    assert_eq!(t.denominator(), 100);
    assert_eq!(Tolerance::exact().numerator(), 0);
    assert_eq!(Tolerance::exact().denominator(), 1);
}

#[test]
fn tolerance_is_relative_to_the_measured_amount() {
    let t = Tolerance::new(5, 100).unwrap();
    let measured = U256::from_u64(1_000);
    assert!(t.allows_amount(&U256::from_u64(1_000), &measured));
    assert!(t.allows_amount(&U256::from_u64(1_050), &measured));
    assert!(t.allows_amount(&U256::from_u64(950), &measured));
    assert!(!t.allows_amount(&U256::from_u64(1_051), &measured));
    assert!(!t.allows_amount(&U256::from_u64(949), &measured));
    assert!(!t.allows_amount(&U256::from_u64(1), &U256::zero()));
    assert!(t.allows_amount(&U256::zero(), &U256::zero()));
}

#[test]
fn exact_tolerance_allows_only_equality() {
    let t = Tolerance::exact();
    assert!(t.allows_gas(225_000, 225_000));
    assert!(!t.allows_gas(225_000, 225_001));
    assert!(!t.allows_gas(225_001, 225_000));
}

#[test]
fn tolerance_holds_on_amounts_that_fill_the_word() {
    let max = U256 { w3: u64::MAX, w2: u64::MAX, w1: u64::MAX, w0: u64::MAX };
    let almost = U256 { w3: u64::MAX, w2: u64::MAX, w1: u64::MAX, w0: u64::MAX - 1 };
    assert!(Tolerance::new(u64::MAX, u64::MAX).unwrap().allows_amount(&U256::zero(), &max));
    assert!(!Tolerance::new(u64::MAX - 1, u64::MAX).unwrap().allows_amount(&U256::zero(), &max));
    assert!(Tolerance::new(1, u64::MAX).unwrap().allows_amount(&almost, &max));
    assert!(!Tolerance::exact().allows_amount(&almost, &max));
}

#[test]
fn tolerance_on_gas() {
    let t = Tolerance::new(1, 10).unwrap();
    assert!(t.allows_gas(110, 100));
    assert!(t.allows_gas(90, 100));
    assert!(!t.allows_gas(111, 100));
    assert!(t.allows_gas(u64::MAX, u64::MAX));
}

#[test]
fn a_call_without_return_data_succeeded_unless_it_reverted() {
    assert!(call_succeeded(&result(false, None, 0)));
    assert!(call_succeeded(&result(false, Some(0), 0)));
    assert!(!call_succeeded(&result(true, None, 0)));
    assert!(!call_succeeded(&result(true, Some(1), 0)));
}

#[test]
fn sell_measures_what_the_receiver_gained() {
    assert_eq!(
        measure_amount(OrderKind::Sell, &word(100), &word(790)),
        Some(U256::from_u64(690))
    );
    assert_eq!(measure_amount(OrderKind::Sell, &word(100), &word(100)), None);
    assert_eq!(measure_amount(OrderKind::Sell, &word(100), &word(99)), None);
}

#[test]
fn buy_measures_what_the_trader_spent() {
    assert_eq!(
        measure_amount(OrderKind::Buy, &word(1_000), &word(300)),
        Some(U256::from_u64(700))
    );
    assert_eq!(measure_amount(OrderKind::Buy, &word(100), &word(100)), None);
    assert_eq!(measure_amount(OrderKind::Buy, &word(100), &word(101)), None);
}

#[test]
fn nothing_is_measured_from_answers_that_are_no_word() {
    assert_eq!(measure_amount(OrderKind::Sell, &[], &word(5)), None);
    assert_eq!(measure_amount(OrderKind::Sell, &word(5), &[]), None);
    assert_eq!(measure_amount(OrderKind::Buy, &[0u8; 31], &word(5)), None);
    assert_eq!(measure_amount(OrderKind::Buy, &word(9), &[0u8; 33]), None);
}

#[test]
fn revert_anywhere_is_found() {
    assert!(!has_revert(&vec![]));
    assert!(!has_revert(&vec![result(false, None, 1), result(false, None, 2)]));
    assert!(has_revert(&vec![result(true, None, 1), result(false, None, 2)]));
    assert!(has_revert(&vec![result(false, None, 1), result(true, None, 2)]));
}

#[test]
fn gas_is_summed_over_the_range_and_capped() {
    let results = vec![
        result(false, None, 1_000),
        result(false, None, 20),
        result(false, None, 300),
        result(false, None, 4),
    ];
    assert_eq!(gas_between(&results, 0, 4), 1_324);
    assert_eq!(gas_between(&results, 1, 3), 320);
    assert_eq!(gas_between(&results, 2, 2), 0);
    let heavy = vec![
        result(false, None, u64::MAX - 5),
        result(false, None, 5),
        result(false, None, 1),
        result(false, None, 7),
    ];
    assert_eq!(gas_between(&heavy, 0, 2), u64::MAX);
    assert_eq!(gas_between(&heavy, 0, 4), u64::MAX);
    assert_eq!(gas_between(&heavy, 1, 4), 13);
}

#[test]
fn summary_needs_both_balance_answers() {
    assert_eq!(summarize(OrderKind::Sell, &vec![]), None);
    assert_eq!(summarize(OrderKind::Sell, &vec![result(false, Some(1), 0)]), None);
}

#[test]
fn summary_leaves_the_balance_queries_out_of_the_gas() {
    let results = vec![
        result(false, Some(100), 2_600),
        result(false, None, 50_000),
        result(false, Some(1), 100_000),
        result(false, None, 30_000),
        result(false, Some(790), 2_600),
    ];
    assert_eq!(
        summarize(OrderKind::Sell, &results),
        Some(SimulationSummary {
            reverted: false,
            out_amount: Some(U256::from_u64(690)),
            gas_used: 180_000,
        })
    );
}

#[test]
fn summary_of_two_balance_answers_alone() {
    let results = vec![result(false, Some(5), 9), result(false, Some(6), 9)];
    assert_eq!(
        summarize(OrderKind::Sell, &results),
        Some(SimulationSummary {
            reverted: false,
            out_amount: Some(U256::from_u64(1)),
            gas_used: 0,
        })
    );
}

#[test]
fn summary_reports_a_revert_of_any_call() {
    let results = vec![
        result(false, Some(100), 0),
        result(true, None, 21_000),
        result(false, Some(100), 0),
    ];
    assert_eq!(
        summarize(OrderKind::Buy, &results),
        Some(SimulationSummary { reverted: true, out_amount: None, gas_used: 21_000 })
    );
}

#[test]
fn execution_is_taken_from_the_claim() {
    assert_eq!(into_execution(verification(), trade(700, None)), execution());
}

#[test]
fn echoed_claim_names_zero_gas_where_the_claim_names_none() {
    assert_eq!(echo_claim(verification(), trade(700, Some(225_000)), true), estimate(700, 225_000, true));
    assert_eq!(echo_claim(verification(), trade(700, None), false), estimate(700, 0, false));
}

#[test]
fn revert_returns_the_claim_unverified() {
    let summary = SimulationSummary {
        reverted: true,
        out_amount: Some(U256::from_u64(700)),
        gas_used: 180_000,
    };
    assert_eq!(
        reconcile(&config(true, 1, 1), verification(), trade(700, Some(225_000)), &summary),
        estimate(700, 225_000, false)
    );
}

#[test]
fn unusable_output_returns_the_claim_unverified() {
    let summary = SimulationSummary { reverted: false, out_amount: None, gas_used: 180_000 };
    assert_eq!(
        reconcile(&config(false, 1, 1), verification(), trade(700, Some(225_000)), &summary),
        estimate(700, 225_000, false)
    );
}

#[test]
fn measured_values_are_reported_when_preferred() {
    assert_eq!(
        reconcile(
            &config(true, 0, 1),
            verification(),
            trade(700, Some(225_000)),
            &ok(690, 180_000)
        ),
        estimate(690, 180_000, true)
    );
}

#[test]
fn claimed_values_are_kept_within_tolerance() {
    assert_eq!(
        reconcile(
            &config(false, 1, 4),
            verification(),
            trade(700, Some(225_000)),
            &ok(690, 180_000)
        ),
        estimate(700, 225_000, true)
    );
}

#[test]
fn amount_beyond_tolerance_is_not_verified() {
    assert_eq!(
        reconcile(
            &config(false, 1, 100),
            verification(),
            trade(700, Some(180_000)),
            &ok(690, 180_000)
        ),
        estimate(700, 180_000, false)
    );
}

#[test]
fn gas_beyond_tolerance_is_not_verified() {
    assert_eq!(
        reconcile(
            &config(false, 1, 100),
            verification(),
            trade(700, Some(225_000)),
            &ok(700, 180_000)
        ),
        estimate(700, 225_000, false)
    );
}

#[test]
fn measured_gas_stands_in_where_the_claim_names_none() {
    assert_eq!(
        reconcile(&config(false, 1, 100), verification(), trade(700, None), &ok(700, 180_000)),
        estimate(700, 180_000, true)
    );
}

#[test]
fn latest_block_is_overwritten() {
    let first = BlockContext { number: 10, hash: U256::from_u64(0xaa), timestamp: 1_000 };
    let second = BlockContext { number: 11, hash: U256::from_u64(0xbb), timestamp: 1_012 };
    let mut latest = LatestBlock::new(first);
    assert_eq!(latest.current(), first);
    assert!(!latest.publish(first));
    assert!(latest.publish(second));
    assert_eq!(latest.current(), second);
    assert!(latest.publish(first));
    assert_eq!(latest.current(), first);
}

#[test]
fn failures_say_what_went_wrong() {
    assert_eq!(VerificationError::NodeUnreachable.message(), "node unreachable");
    assert_eq!(VerificationError::Timeout.message(), "simulation timed out");
    assert_eq!(VerificationError::MalformedResponse.message(), "malformed response from node");
    assert_eq!(
        VerificationError::MalformedOverrides.message(),
        "node refused the state overrides"
    );
}
