//! The result reconciler: holds what a simulation measured against what the
//! solver claimed and decides what is reported.

use crate::abi::{decode_word, decoded_word};
use crate::chain::{call_succeeded, CallResult, CallResultView};
use crate::model::{
    Estimate, EstimateView, OrderKind, QuoteExecution, QuoteExecutionView, TradeKind,
    TradeKindView, Verification, VerificationView,
};
use crate::u256::{lemma_bound_values, lemma_u256_of_view, lemma_view_injective, u256_of, U256};
use vstd::prelude::*;

verus! {

/// How far a claimed number may lie from the measured one: by at most
/// `numerator / denominator` of the measured number.
#[derive(Clone, Copy, Debug, PartialEq, Eq)]
pub struct Tolerance {
    numerator: u64,
    denominator: u64,
}

impl Tolerance {
    #[verifier::type_invariant]
    spec fn well_formed(self) -> bool {
        self.denominator > 0
    }

    pub closed spec fn spec_numerator(&self) -> u64 {
        self.numerator
    }

    pub closed spec fn spec_denominator(&self) -> u64 {
        self.denominator
    }

    /// Whether `claimed` lies within the tolerance of `measured`.
    pub open spec fn allows(&self, claimed: nat, measured: nat) -> bool {
        let distance = if claimed >= measured {
            claimed - measured
        } else {
            measured - claimed
        };
        distance * self.spec_denominator() <= self.spec_numerator() * measured
    }

    /// The tolerance `numerator / denominator`, or `None` where the
    /// denominator is zero.
    pub fn new(numerator: u64, denominator: u64) -> (r: Option<Tolerance>)
        ensures
            r is Some <==> denominator > 0,
            r matches Some(t) ==> t.spec_numerator() == numerator && t.spec_denominator()
                == denominator,
    {
        if denominator == 0 {
            None
        } else {
            Some(Tolerance { numerator, denominator })
        }
    }

    /// The tolerance that admits no deviation at all.
    pub fn exact() -> (r: Tolerance)
        ensures
            r.spec_numerator() == 0,
            r.spec_denominator() == 1,
    {
        Tolerance { numerator: 0, denominator: 1 }
    }

    #[verifier::when_used_as_spec(spec_numerator)]
    pub fn numerator(&self) -> (r: u64)
        ensures
            r == self.spec_numerator(),
    {
        self.numerator
    }

    #[verifier::when_used_as_spec(spec_denominator)]
    pub fn denominator(&self) -> (r: u64)
        ensures
            r == self.spec_denominator(),
            r > 0,
    {
        proof {
            use_type_invariant(self);
        }
        self.denominator
    }

    /// Whether the amount `claimed` lies within the tolerance of `measured`.
    pub fn allows_amount(&self, claimed: &U256, measured: &U256) -> (r: bool)
        ensures
            r == self.allows(claimed@, measured@),
    {
        let distance: U256 = claimed.abs_diff(measured);
        let (left_low, left_high) = distance.widening_mul_u64(self.denominator);
        let (right_low, right_high) = measured.widening_mul_u64(self.numerator);
        proof {
            lemma_bound_values();
            lemma_view_injective(left_low, right_low);
            lemma_view_injective(right_low, left_low);
            assert(self.numerator as nat * measured@ == measured@ * self.numerator as nat)
                by (nonlinear_arith);
        }
        if left_high != right_high {
            left_high < right_high
        } else {
            left_low.le(&right_low)
        }
    }

    /// Whether the gas amount `claimed` lies within the tolerance of `measured`.
    pub fn allows_gas(&self, claimed: u64, measured: u64) -> (r: bool)
        ensures
            r == self.allows(claimed as nat, measured as nat),
    {
        self.allows_amount(&U256::from_u64(claimed), &U256::from_u64(measured))
    }
}

/// What a simulation of a trade showed.
#[derive(Clone, Copy, Debug, PartialEq, Eq)]
pub struct SimulationSummary {
    /// Whether any call of the batch reverted.
    pub reverted: bool,
    /// The amount that the simulation moved on the side the user did not
    /// fix, where it could be measured and is positive.
    pub out_amount: Option<U256>,
    /// The gas that the calls of the settlement used, capped at `u64::MAX`.
    pub gas_used: u64,
}

/// Whether any of the calls reverted.
pub open spec fn any_reverted(results: Seq<CallResultView>) -> bool {
    exists|i: int| 0 <= i < results.len() && #[trigger] results[i].reverted
}

/// The gas that the calls used in sum.
pub open spec fn total_gas(results: Seq<CallResultView>) -> nat
    decreases results.len(),
{
    if results.len() == 0 {
        0
    } else {
        total_gas(results.drop_last()) + results.last().gas_used as nat
    }
}

/// The amount moved, from what the balance query returned before and after
/// the settlement. For a sell it is what the receiver gained of the buy
/// token, for a buy what the trader spent of the sell token. There is none
/// where either answer is not one 32-byte word or nothing was moved.
pub open spec fn measured_amount(kind: OrderKind, before: Seq<u8>, after: Seq<u8>) -> Option<U256> {
    match (decoded_word(before), decoded_word(after)) {
        (Some(b), Some(a)) => match kind {
            OrderKind::Sell => if a > b {
                Some(u256_of((a - b) as nat))
            } else {
                None
            },
            OrderKind::Buy => if b > a {
                Some(u256_of((b - a) as nat))
            } else {
                None
            },
        },
        _ => None,
    }
}

/// What the results of a simulated batch show, where the first and the last
/// call of the batch are the balance queries round the settlement.
pub open spec fn summary_of(kind: OrderKind, results: Seq<CallResultView>) -> SimulationSummary
    recommends
        results.len() >= 2,
{
    let used = total_gas(results.subrange(1, results.len() - 1));
    SimulationSummary {
        reverted: any_reverted(results),
        out_amount: measured_amount(kind, results.first().return_data, results.last().return_data),
        gas_used: if used > u64::MAX {
            u64::MAX
        } else {
            used as u64
        },
    }
}

/// The amount moved, from what the balance query returned before and after
/// the settlement.
pub fn measure_amount(kind: OrderKind, before: &[u8], after: &[u8]) -> (r: Option<U256>)
    ensures
        r == measured_amount(kind, before@, after@),
{
    let b: U256 = match decode_word(before) {
        Some(b) => b,
        None => {
            return None;
        },
    };
    let a: U256 = match decode_word(after) {
        Some(a) => a,
        None => {
            return None;
        },
    };
    let moved: Option<U256> = match kind {
        OrderKind::Sell => a.checked_sub(&b),
        OrderKind::Buy => b.checked_sub(&a),
    };
    match moved {
        Some(amount) => {
            proof {
                lemma_u256_of_view(amount);
            }
            if amount.is_zero() {
                None
            } else {
                Some(amount)
            }
        },
        None => None,
    }
}

/// Whether any of the calls reverted.
pub fn has_revert(results: &Vec<CallResult>) -> (r: bool)
    ensures
        r == any_reverted(results.deep_view()),
{
    let mut i: usize = 0;
    while i < results.len()
        invariant
            i <= results.len(),
            forall|k: int| 0 <= k < i ==> !(#[trigger] results.deep_view()[k]).reverted,
        decreases results.len() - i,
    {
        if !call_succeeded(&results[i]) {
            assert(results.deep_view()[i as int].reverted);
            return true;
        }
        i += 1;
    }
    false
}

/// The gas that the calls from index `from` up to, not including, index
/// `to` used in sum, capped at `u64::MAX`.
pub fn gas_between(results: &Vec<CallResult>, from: usize, to: usize) -> (r: u64)
    requires
        from <= to <= results.len(),
    ensures
        r as nat == (if total_gas(results.deep_view().subrange(from as int, to as int)) > u64::MAX {
            u64::MAX as nat
        } else {
            total_gas(results.deep_view().subrange(from as int, to as int))
        }),
{
    let mut gas: u64 = 0;
    let mut i: usize = from;
    let ghost all = results.deep_view();
    while i < to
        invariant
            from <= i <= to <= results.len(),
            all == results.deep_view(),
            gas as nat == (if total_gas(all.subrange(from as int, i as int)) > u64::MAX {
                u64::MAX as nat
            } else {
                total_gas(all.subrange(from as int, i as int))
            }),
        decreases to - i,
    {
        let used: u64 = results[i].gas_used;
        proof {
            let next = all.subrange(from as int, i + 1);
            assert(next.drop_last() =~= all.subrange(from as int, i as int));
            assert(next.last().gas_used == used);
        }
        gas = if gas > u64::MAX - used {
            u64::MAX
        } else {
            gas + used
        };
        i += 1;
    }
    gas
}

/// What the results of a simulated batch show, or `None` where there are
/// fewer than the two results of the balance queries.
pub fn summarize(kind: OrderKind, results: &Vec<CallResult>) -> (r: Option<SimulationSummary>)
    ensures
        r is Some <==> results.len() >= 2,
        r matches Some(s) ==> s == summary_of(kind, results.deep_view()),
{
    let n: usize = results.len();
    if n < 2 {
        return None;
    }
    let reverted: bool = has_revert(results);
    let gas_used: u64 = gas_between(results, 1, n - 1);
    let out_amount: Option<U256> = measure_amount(
        kind,
        results[0].return_data.as_slice(),
        results[n - 1].return_data.as_slice(),
    );
    Some(SimulationSummary { reverted, out_amount, gas_used })
}

/// How the engine reconciles.
#[derive(Clone, Copy, Debug, PartialEq, Eq)]
pub struct ReconcilerConfig {
    /// Report what the simulation measured, not what the solver claimed.
    pub prefer_measured: bool,
    /// How far a claim may lie from the measurement and still count as
    /// corroborated. It is not consulted where `prefer_measured` holds.
    pub tolerance: Tolerance,
}

/// The calls that an estimate for this trade rests on: always those of the
/// claim.
pub open spec fn execution_of(verification: VerificationView, trade: TradeKindView)
    -> QuoteExecutionView {
    QuoteExecutionView {
        interactions: trade.interactions(),
        pre_interactions: verification.pre_interactions,
        jit_orders: trade.jit_orders(),
    }
}

/// The gas that the claim names, or zero where it names none.
pub open spec fn claimed_gas(trade: TradeKindView) -> u64 {
    match trade.gas_estimate() {
        Some(gas) => gas,
        None => 0,
    }
}

/// The claim as it stands, marked as `verified` says.
pub open spec fn claim_estimate(verification: VerificationView, trade: TradeKindView, verified: bool)
    -> EstimateView {
    EstimateView {
        out_amount: trade.out_amount(),
        gas: claimed_gas(trade),
        solver: trade.solver(),
        verified,
        execution: execution_of(verification, trade),
    }
}

/// Whether the claimed amount, and the claimed gas where there is one, lie
/// within the tolerance of what was measured.
pub open spec fn claim_within(
    tolerance: Tolerance,
    trade: TradeKindView,
    measured: U256,
    gas_used: u64,
) -> bool {
    &&& tolerance.allows(trade.out_amount()@, measured@)
    &&& trade.gas_estimate() matches Some(gas) ==> tolerance.allows(gas as nat, gas_used as nat)
}

/// What is reported for a claim of which a simulation showed `summary`.
///
/// - The simulation reverted or moved nothing measurable: the claim, unverified.
/// - Measured values are preferred: the measured amount and gas, verified.
/// - Else the claimed values (the measured gas where the claim names none),
///   verified exactly if the claim lies within the tolerance.
pub open spec fn reconciled(
    config: ReconcilerConfig,
    verification: VerificationView,
    trade: TradeKindView,
    summary: SimulationSummary,
) -> EstimateView {
    if summary.reverted {
        claim_estimate(verification, trade, false)
    } else {
        match summary.out_amount {
            None => claim_estimate(verification, trade, false),
            Some(measured) => if config.prefer_measured {
                EstimateView {
                    out_amount: measured,
                    gas: summary.gas_used,
                    solver: trade.solver(),
                    verified: true,
                    execution: execution_of(verification, trade),
                }
            } else {
                EstimateView {
                    out_amount: trade.out_amount(),
                    gas: match trade.gas_estimate() {
                        Some(gas) => gas,
                        None => summary.gas_used,
                    },
                    solver: trade.solver(),
                    verified: claim_within(config.tolerance, trade, measured, summary.gas_used),
                    execution: execution_of(verification, trade),
                }
            },
        }
    }
}

/// The calls that an estimate for this trade rests on, taken out of the claim.
pub fn into_execution(verification: Verification, trade: TradeKind) -> (r: QuoteExecution)
    ensures
        r@ == execution_of(verification@, trade@),
{
    let jit_orders = trade.jit_orders();
    let interactions = match trade {
        TradeKind::Legacy(legacy) => legacy.interactions,
    };
    QuoteExecution { interactions, pre_interactions: verification.pre_interactions, jit_orders }
}

/// The claim as it stands, marked as `verified` says.
pub fn echo_claim(verification: Verification, trade: TradeKind, verified: bool) -> (r: Estimate)
    ensures
        r@ == claim_estimate(verification@, trade@, verified),
{
    let out_amount: U256 = trade.out_amount();
    let gas: u64 = match trade.gas_estimate() {
        Some(gas) => gas,
        None => 0,
    };
    let solver = trade.solver();
    Estimate { out_amount, gas, solver, verified, execution: into_execution(verification, trade) }
}

/// Decides what is reported for a claim of which a simulation showed `summary`.
pub fn reconcile(
    config: &ReconcilerConfig,
    verification: Verification,
    trade: TradeKind,
    summary: &SimulationSummary,
) -> (r: Estimate)
    ensures
        r@ == reconciled(*config, verification@, trade@, *summary),
{
    if summary.reverted {
        return echo_claim(verification, trade, false);
    }
    let measured: U256 = match summary.out_amount {
        Some(measured) => measured,
        None => {
            return echo_claim(verification, trade, false);
        },
    };
    let solver = trade.solver();
    if config.prefer_measured {
        return Estimate {
            out_amount: measured,
            gas: summary.gas_used,
            solver,
            verified: true,
            execution: into_execution(verification, trade),
        };
    }
    let out_amount: U256 = trade.out_amount();
    let amount_ok: bool = config.tolerance.allows_amount(&out_amount, &measured);
    let (gas, gas_ok) = match trade.gas_estimate() {
        Some(gas) => (gas, config.tolerance.allows_gas(gas, summary.gas_used)),
        None => (summary.gas_used, true),
    };
    Estimate {
        out_amount,
        gas,
        solver,
        verified: amount_ok && gas_ok,
        execution: into_execution(verification, trade),
    }
}

} // verus!
