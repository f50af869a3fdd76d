//! What holds of the engine as a whole, proved from the definitions that the
//! contracts of its functions are stated in.

use crate::address::{address_of, lemma_address_of_view, Address};
use crate::bytes::{
    be_bytes, be_value, lemma_be_bytes_len, lemma_be_bytes_of_value, lemma_be_value_of_bytes,
    lemma_radix_pow_adds, lemma_radix_pow_values, radix_pow,
};
use crate::chain::{
    AccountBalanceOverride, BlockContext, CallResultView, StateOverridesView, StorageOverride,
};
use crate::config::{address_text, hex_text, lemma_hex_text, parsed_address, without_prefix};
use crate::model::{
    InteractionView, OrderKind, PriceQuery, TradeKindView, VerificationError, VerificationView,
};
use crate::overrides::{
    after_probe, candidate_slot, next_candidate, override_at, probe_call, probe_hit, probe_write,
    resolution, BalanceOverridesView, OverrideRequest, OverrideTarget, ResolutionView, SlotKind,
    SlotLookup,
};
use crate::protocol::{
    bypasses_simulation, driven, known_after, measurement_call, native_overrides,
    override_requests, probe_request, resumed, sell_side_requests, simulation_calls, started,
    ActionView, EventView, PhaseView, ProgressView, SessionView, TradeVerifier,
};
use crate::reconciler::{
    any_reverted, claim_estimate, claim_within, claimed_gas, execution_of, measured_amount,
    reconciled, summary_of, total_gas,
};
use crate::sequencer::{call_batch, sell_amount, transfer_in, transfer_out};
use crate::u256::{
    lemma_u256_of_view, lemma_view_injective, lemma_view_of_u256, lemma_word_bound, u256_of, U256,
};
use vstd::prelude::*;

verus! {

/// Decoding undoes encoding: the 32 bytes that a number is written as are
/// read back as that number.
pub proof fn law_word_round_trip(x: U256)
    ensures
        be_bytes(x@, 32).len() == 32,
        u256_of(be_value(be_bytes(x@, 32))) == x,
{
    lemma_be_bytes_len(x@, 32);
    lemma_view_injective(x, x);
    lemma_word_bound(be_bytes(x@, 32));
    lemma_be_value_of_bytes(x@, 32);
    lemma_u256_of_view(x);
}

/// Encoding undoes decoding: a 32-byte word is what the number it denotes
/// is written as. So every number has one word and every word one number.
pub proof fn law_word_is_canonical(word: Seq<u8>)
    requires
        word.len() == 32,
    ensures
        be_bytes(u256_of(be_value(word))@, 32) == word,
{
    lemma_word_bound(word);
    lemma_view_of_u256(be_value(word));
    lemma_be_bytes_of_value(word);
}

/// The 20 bytes that an address is written as are read back as that address.
pub proof fn law_address_round_trip(a: Address)
    ensures
        be_bytes(a@, 20).len() == 20,
        address_of(be_value(be_bytes(a@, 20))) == a,
{
    lemma_be_bytes_len(a@, 20);
    lemma_radix_pow_values();
    lemma_radix_pow_adds(8, 12);
    assert(radix_pow(20) == 0x1_0000_0000_0000_0000_0000_0000_0000_0000_0000_0000nat) by {
        assert(0x1_0000_0000_0000_0000nat * 0x1_0000_0000_0000_0000_0000_0000nat
            == 0x1_0000_0000_0000_0000_0000_0000_0000_0000_0000_0000nat) by (nonlinear_arith);
    }
    lemma_be_value_of_bytes(a@, 20);
    lemma_address_of_view(a);
}

/// An address is read back from the way it is spelled.
pub proof fn law_address_text_round_trip(a: Address)
    ensures
        parsed_address(address_text(a)) == Some(a),
{
    let bytes = be_bytes(a@, 20);
    law_address_round_trip(a);
    lemma_hex_text(bytes);
    let text = address_text(a);
    assert(without_prefix(text) =~= hex_text(bytes));
}

/// A trade whose origin is the zero address is never simulated: its
/// verification is over at once, and the estimate is the claim, marked
/// verified, with the claimed amount, gas, solver and interactions.
pub proof fn law_bypass_echoes_claim(
    query: PriceQuery,
    verification: VerificationView,
    trade: TradeKindView,
)
    requires
        bypasses_simulation(trade),
    ensures
        started(query, verification, trade) matches ProgressView::Done(Ok(estimate))
            && estimate.verified && estimate.out_amount == trade.out_amount() && estimate.gas
            == claimed_gas(trade) && estimate.solver == trade.solver()
            && estimate.execution.interactions == trade.interactions()
            && estimate.execution.pre_interactions == verification.pre_interactions,
{
}

/// What the walk through the override requests ends in: always in a
/// simulation for the caller to run, with the session's query, context and
/// trade untouched. Where it is a probe, the request probed for is one at or
/// after `next`, its slot is neither configured nor detected, the candidate
/// is below the bound and not below `candidate` if the request is `next`
/// itself, and the simulation is the probe of that candidate.
pub proof fn law_walk_ends_in_simulation(
    verifier: TradeVerifier,
    known: BalanceOverridesView,
    query: PriceQuery,
    verification: VerificationView,
    trade: TradeKindView,
    block: BlockContext,
    requests: Seq<OverrideRequest>,
    next: nat,
    candidate: u64,
    overrides: StateOverridesView,
)
    ensures
        driven(
            verifier,
            known,
            query,
            verification,
            trade,
            block,
            requests,
            next,
            candidate,
            overrides,
        ) matches ProgressView::Pending { session, action } && session.query == query
            && session.verification == verification && session.trade == trade && match action {
            ActionView::ReadBlock => false,
            ActionView::Simulate(request) => session.phase is Simulating && request.block == block
                && request.calls == simulation_calls(verifier, query, verification, trade),
            ActionView::Probe(request) => session.phase matches PhaseView::Resolving {
                block: at,
                requests: pending,
                next: index,
                candidate: trying,
                ..
            } && at == block && pending == requests && next <= index < requests.len() && (index
                == next ==> trying == candidate) && (index > next ==> trying == 0) && trying
                < known.probe_bound && known.lookup(
                requests[index as int].target.spec_kind(),
                requests[index as int].token,
            ) == SlotLookup::NeedsDetection && request == probe_request(
                probe_call(requests[index as int]),
                probe_write(requests[index as int], trying),
                block,
            ),
        },
    decreases requests.len() - next,
{
    if next < requests.len() {
        match resolution(known, requests[next as int], candidate) {
            ResolutionView::Ready(found) => {
                law_walk_ends_in_simulation(
                    verifier,
                    known,
                    query,
                    verification,
                    trade,
                    block,
                    requests,
                    next + 1,
                    0,
                    StateOverridesView { storage: overrides.storage.push(found), ..overrides },
                );
            },
            ResolutionView::Unavailable => {
                law_walk_ends_in_simulation(
                    verifier,
                    known,
                    query,
                    verification,
                    trade,
                    block,
                    requests,
                    next + 1,
                    0,
                    overrides,
                );
            },
            ResolutionView::Probe { .. } => {},
        }
    }
}

/// The session in which a verification awaits the block.
pub open spec fn awaiting_block(
    query: PriceQuery,
    verification: VerificationView,
    trade: TradeKindView,
) -> SessionView {
    SessionView { query, verification, trade, phase: PhaseView::AwaitingBlock }
}

/// A trade with any other origin, or none, is simulated: its verification
/// first reads the block and then has the caller run a simulation.
pub proof fn law_other_origins_are_simulated(
    verifier: TradeVerifier,
    known: BalanceOverridesView,
    query: PriceQuery,
    verification: VerificationView,
    trade: TradeKindView,
    block: BlockContext,
)
    requires
        !bypasses_simulation(trade),
    ensures
        started(query, verification, trade) == (ProgressView::Pending {
            session: awaiting_block(query, verification, trade),
            action: ActionView::ReadBlock,
        }),
        resumed(
            verifier,
            known,
            awaiting_block(query, verification, trade),
            EventView::Block(block),
        ) matches ProgressView::Pending { action, .. } && (action is Probe || action is Simulate),
{
    law_walk_ends_in_simulation(
        verifier,
        known,
        query,
        verification,
        trade,
        block,
        override_requests(verifier, query, verification, trade),
        0,
        0,
        StateOverridesView {
            storage: Seq::empty(),
            balances: native_overrides(verifier, query, verification, trade),
        },
    );
}

/// Once the trade's simulation has answered with one result for each call,
/// there is an estimate, and it is marked verified exactly if no call
/// reverted, an amount could be measured, and either measured values are
/// reported or the claim lies within the tolerance of them. Solver and
/// calls are those of the claim; so is the amount of an estimate that is not
/// verified.
pub proof fn law_verified_reflects_simulation(
    verifier: TradeVerifier,
    known: BalanceOverridesView,
    session: SessionView,
    results: Seq<CallResultView>,
)
    requires
        session.phase == (PhaseView::Simulating { calls: results.len() }),
        results.len() >= 2,
    ensures
        resumed(verifier, known, session, EventView::Simulated(results)) matches ProgressView::Done(
            Ok(estimate),
        ) && estimate.verified == (!any_reverted(results) && (summary_of(
            session.query.kind,
            results,
        ).out_amount matches Some(measured) && (verifier.reconciler.prefer_measured
            || claim_within(
            verifier.reconciler.tolerance,
            session.trade,
            measured,
            summary_of(session.query.kind, results).gas_used,
        )))) && estimate.solver == session.trade.solver() && estimate.execution == execution_of(
            session.verification,
            session.trade,
        ) && (!estimate.verified ==> estimate.out_amount == session.trade.out_amount()),
{
}

/// A failure of the infrastructure ends the verification with that very
/// error, whatever the phase: it is never turned into an unverified estimate.
pub proof fn law_failure_is_surfaced(
    verifier: TradeVerifier,
    known: BalanceOverridesView,
    session: SessionView,
    error: VerificationError,
)
    ensures
        resumed(verifier, known, session, EventView::Failed(error)) == ProgressView::Done(
            Err(error),
        ),
{
}

/// A revert is no error: a simulation in which a call reverted still gives
/// an estimate, which is the claim, not verified.
pub proof fn law_revert_gives_unverified_claim(
    verifier: TradeVerifier,
    known: BalanceOverridesView,
    session: SessionView,
    results: Seq<CallResultView>,
)
    requires
        session.phase == (PhaseView::Simulating { calls: results.len() }),
        results.len() >= 2,
        any_reverted(results),
    ensures
        resumed(verifier, known, session, EventView::Simulated(results)) == ProgressView::Done(
            Ok(claim_estimate(session.verification, session.trade, false)),
        ),
{
}

/// Whatever the session and whatever comes in: a probe is only ever asked
/// for a token whose slot of that kind is neither configured nor detected.
/// So a token with a configured slot is never probed, and one whose slot
/// has been detected is not probed again.
pub proof fn law_known_slot_is_never_probed(
    verifier: TradeVerifier,
    known: BalanceOverridesView,
    session: SessionView,
    event: EventView,
)
    ensures
        resumed(verifier, known, session, event) matches ProgressView::Pending {
            session: after,
            action: ActionView::Probe(request),
        } ==> after.phase matches PhaseView::Resolving { requests, next, candidate, .. } && next
            < requests.len() && candidate < known.probe_bound && request.calls == seq![
            probe_call(requests[next as int]),
        ] && known.autodetect && !known.explicit(
            requests[next as int].target.spec_kind(),
        ).contains_key(requests[next as int].token) && !known_after(
            known,
            session,
            event,
        ).detected(requests[next as int].target.spec_kind()).contains_key(
            requests[next as int].token,
        ),
{
    match event {
        EventView::Block(block) => {
            law_walk_ends_in_simulation(
                verifier,
                known,
                session.query,
                session.verification,
                session.trade,
                block,
                override_requests(verifier, session.query, session.verification, session.trade),
                0,
                0,
                StateOverridesView {
                    storage: Seq::empty(),
                    balances: native_overrides(
                        verifier,
                        session.query,
                        session.verification,
                        session.trade,
                    ),
                },
            );
        },
        EventView::Simulated(results) => {
            match session.phase {
                PhaseView::Resolving { block, requests, next, candidate, overrides } => {
                    if next < requests.len() && results.len() == 1 {
                        law_walk_ends_in_simulation(
                            verifier,
                            after_probe(known, requests[next as int], candidate, results[0]),
                            session.query,
                            session.verification,
                            session.trade,
                            block,
                            requests,
                            next,
                            next_candidate(candidate, results[0]),
                            overrides,
                        );
                    }
                },
                _ => {},
            }
        },
        EventView::Failed(_) => {},
    }
}

/// Detection starts with the first request: where the slot of the sell
/// token's balances is neither configured nor detected and the bound leaves
/// room, the block is answered with the probe of candidate 0 for the
/// trader's balance.
pub proof fn law_unknown_slot_is_probed_first(
    verifier: TradeVerifier,
    known: BalanceOverridesView,
    query: PriceQuery,
    verification: VerificationView,
    trade: TradeKindView,
    block: BlockContext,
)
    requires
        verification.trader != verifier.settlement,
        query.sell_token != verifier.native_token,
        known.lookup(SlotKind::Balance, query.sell_token) == SlotLookup::NeedsDetection,
        known.probe_bound > 0,
    ensures
        resumed(
            verifier,
            known,
            awaiting_block(query, verification, trade),
            EventView::Block(block),
        ) matches ProgressView::Pending { session, action: ActionView::Probe(request) }
            && session.phase matches PhaseView::Resolving { next, candidate, requests, .. } && next
            == 0 && candidate == 0 && requests == override_requests(
            verifier,
            query,
            verification,
            trade,
        ) && requests[0] == (OverrideRequest {
            token: query.sell_token,
            target: OverrideTarget::Balance { holder: verification.trader },
            amount: sell_amount(query, trade),
        }) && request == probe_request(
            probe_call(requests[0]),
            probe_write(requests[0], 0),
            block,
        ),
{
}

/// Detection is bounded: when the answer to a probe leads to another probe,
/// that one is for the next candidate of the same request or for the first
/// candidate of a later request, and its candidate is below the bound. So a
/// verification with `n` override requests asks for at most `n` times the
/// bound probes.
pub proof fn law_detection_is_bounded(
    verifier: TradeVerifier,
    known: BalanceOverridesView,
    session: SessionView,
    results: Seq<CallResultView>,
)
    requires
        session.phase is Resolving,
    ensures
        resumed(verifier, known, session, EventView::Simulated(results)) matches ProgressView::Pending {
            session: after,
            action: ActionView::Probe(_),
        } ==> after.phase matches PhaseView::Resolving {
            requests: pending,
            next: index,
            candidate: trying,
            ..
        } && pending == session.phase->Resolving_requests && index < pending.len() && trying
            < known.probe_bound && (index > session.phase->Resolving_next || (index
            == session.phase->Resolving_next && trying == session.phase->Resolving_candidate + 1)),
{
    match session.phase {
        PhaseView::Resolving { block, requests, next, candidate, overrides } => {
            if next < requests.len() && results.len() == 1 {
                law_walk_ends_in_simulation(
                    verifier,
                    after_probe(known, requests[next as int], candidate, results[0]),
                    session.query,
                    session.verification,
                    session.trade,
                    block,
                    requests,
                    next,
                    next_candidate(candidate, results[0]),
                    overrides,
                );
            }
        },
        _ => {},
    }
}

/// How many probes a verification may still ask for, the one under way
/// included, when it is probing `candidate` for request `next` of `count`
/// with `bound` candidates to a request.
pub open spec fn probes_left(bound: nat, count: nat, next: nat, candidate: nat) -> nat {
    ((bound - candidate) + bound * (count - next - 1)) as nat
}

/// The budget of probes shrinks: when the answer to a probe leads to another
/// probe, fewer probes are left than before. The budget starts at no more
/// than the bound for each request, so a verification asks for at most that
/// many probes.
pub proof fn law_probe_budget_shrinks(
    verifier: TradeVerifier,
    known: BalanceOverridesView,
    session: SessionView,
    results: Seq<CallResultView>,
)
    requires
        session.phase matches PhaseView::Resolving { requests, next, candidate, .. } && next
            < requests.len() && candidate < known.probe_bound,
    ensures
        probes_left(
            known.probe_bound as nat,
            session.phase->Resolving_requests.len(),
            session.phase->Resolving_next,
            session.phase->Resolving_candidate as nat,
        ) <= known.probe_bound * session.phase->Resolving_requests.len(),
        resumed(verifier, known, session, EventView::Simulated(results)) matches ProgressView::Pending {
            session: after,
            action: ActionView::Probe(_),
        } ==> after.phase matches PhaseView::Resolving {
            requests: pending,
            next: index,
            candidate: trying,
            ..
        } && probes_left(known.probe_bound as nat, pending.len(), index, trying as nat)
            < probes_left(
            known.probe_bound as nat,
            session.phase->Resolving_requests.len(),
            session.phase->Resolving_next,
            session.phase->Resolving_candidate as nat,
        ),
{
    law_detection_is_bounded(verifier, known, session, results);
    let bound = known.probe_bound as int;
    let count = session.phase->Resolving_requests.len() as int;
    let next = session.phase->Resolving_next as int;
    let candidate = session.phase->Resolving_candidate as int;
    assert(bound * (count - next - 1) >= 0) by (nonlinear_arith)
        requires
            bound >= 0,
            count - next - 1 >= 0,
    ;
    assert(bound + bound * (count - next - 1) <= bound * count) by (nonlinear_arith)
        requires
            bound >= 0,
            0 <= next < count,
    ;
    match resumed(verifier, known, session, EventView::Simulated(results)) {
        ProgressView::Pending { session: after, action: ActionView::Probe(_) } => {
            let index = after.phase->Resolving_next as int;
            assert(bound * (count - index - 1) >= 0) by (nonlinear_arith)
                requires
                    bound >= 0,
                    count - index - 1 >= 0,
            ;
            if index > next {
                assert(bound + bound * (count - index - 1) <= bound * (count - next - 1))
                    by (nonlinear_arith)
                    requires
                        bound >= 0,
                        next < index < count,
                ;
            }
        },
        _ => {},
    }
}

/// A verification asks for at most three storage overrides.
pub proof fn law_at_most_three_requests(
    verifier: TradeVerifier,
    query: PriceQuery,
    verification: VerificationView,
    trade: TradeKindView,
)
    ensures
        override_requests(verifier, query, verification, trade).len() <= 3,
{
}

/// What is known of slots only grows: whatever comes in for whatever
/// session, the configuration stays and every detected slot stays as it is.
pub proof fn law_known_slots_only_grow(
    known: BalanceOverridesView,
    session: SessionView,
    event: EventView,
)
    ensures
        known_after(known, session, event).extends(known),
{
}

/// A probe that hit changes what is known of the probed token's mapping of
/// the probed kind and of nothing else.
pub proof fn law_detection_touches_one_token(
    known: BalanceOverridesView,
    request: OverrideRequest,
    candidate: u64,
    result: CallResultView,
    kind: SlotKind,
    token: Address,
)
    requires
        kind != request.target.spec_kind() || token != request.token,
    ensures
        after_probe(known, request, candidate, result).lookup(kind, token) == known.lookup(
            kind,
            token,
        ),
{
}

/// Detections of one token converge: of two slots reported for the same
/// mapping of the same token the first one stays, in whatever order
/// racing verifications report them.
pub proof fn law_first_detection_wins(
    known: BalanceOverridesView,
    kind: SlotKind,
    token: Address,
    first: U256,
    second: U256,
)
    ensures
        known.with_detected(kind, token, first).with_detected(kind, token, second)
            == known.with_detected(kind, token, first),
        known.with_detected(kind, token, first).detected(kind).contains_key(token),
        !known.detected(kind).contains_key(token) ==> known.with_detected(
            kind,
            token,
            first,
        ).detected(kind)[token] == first,
{
}

/// Once a probe for a token has hit, every later request for the same
/// mapping of that token is resolved at once, with no probe, from the slot
/// that was found; and this stays so however much more is detected.
pub proof fn law_detected_slot_is_reused(
    known: BalanceOverridesView,
    request: OverrideRequest,
    candidate: u64,
    result: CallResultView,
    later: BalanceOverridesView,
    again: OverrideRequest,
    any_candidate: u64,
)
    requires
        known.lookup(request.target.spec_kind(), request.token) == SlotLookup::NeedsDetection,
        probe_hit(result),
        later.extends(after_probe(known, request, candidate, result)),
        again.token == request.token,
        again.target.spec_kind() == request.target.spec_kind(),
    ensures
        resolution(later, again, any_candidate) == ResolutionView::Ready(
            override_at(again, candidate_slot(candidate)),
        ),
{
    let found = after_probe(known, request, candidate, result);
    assert(found.detected(request.target.spec_kind()).contains_key(request.token));
}

/// The settlement contract as a party: where it is the trader, nothing is
/// transferred in and no override is asked for the sell side; where it is
/// the receiver, named or by default, nothing is transferred out. Where it
/// is both, the batch is the given interactions alone.
pub proof fn law_settlement_contract_as_party(
    verifier: TradeVerifier,
    query: PriceQuery,
    verification: VerificationView,
    trade: TradeKindView,
)
    ensures
        verification.trader == verifier.settlement ==> transfer_in(
            query,
            verification,
            trade,
            verifier.settlement,
        ) == Seq::<InteractionView>::empty() && sell_side_requests(
            verifier,
            query,
            verification,
            trade,
        ) == Seq::<OverrideRequest>::empty() && native_overrides(
            verifier,
            query,
            verification,
            trade,
        ) == Seq::<AccountBalanceOverride>::empty(),
        verification.effective_receiver() == verifier.settlement ==> transfer_out(
            query,
            verification,
            trade,
            verifier.settlement,
        ) == Seq::<InteractionView>::empty(),
        verification.trader == verifier.settlement && verification.effective_receiver()
            == verifier.settlement ==> call_batch(query, verification, trade, verifier.settlement)
            == verification.pre_interactions + trade.interactions()
            + verification.post_interactions,
        verification.trader != verifier.settlement ==> transfer_in(
            query,
            verification,
            trade,
            verifier.settlement,
        ).len() == 1,
        verification.effective_receiver() != verifier.settlement ==> transfer_out(
            query,
            verification,
            trade,
            verifier.settlement,
        ).len() == 1,
{
    if verification.trader == verifier.settlement && verification.effective_receiver()
        == verifier.settlement {
        assert(call_batch(query, verification, trade, verifier.settlement)
            =~= verification.pre_interactions + trade.interactions()
            + verification.post_interactions);
    }
}

/// Where the slots of both of the sell token's mappings are known,
/// configured or detected, the trade is simulated at once with the trader
/// appearing to hold the amount sold and to allow the settlement contract
/// to move it, whatever the trader really holds.
pub proof fn law_known_slots_fund_the_trader(
    verifier: TradeVerifier,
    known: BalanceOverridesView,
    query: PriceQuery,
    verification: VerificationView,
    trade: TradeKindView,
    block: BlockContext,
    balance_slot: U256,
    allowance_slot: U256,
)
    requires
        !verifier.validate_buy_side,
        verification.trader != verifier.settlement,
        query.sell_token != verifier.native_token,
        known.lookup(SlotKind::Balance, query.sell_token) == SlotLookup::Known(balance_slot),
        known.lookup(SlotKind::Allowance, query.sell_token) == SlotLookup::Known(allowance_slot),
    ensures
        resumed(
            verifier,
            known,
            awaiting_block(query, verification, trade),
            EventView::Block(block),
        ) matches ProgressView::Pending { action: ActionView::Simulate(request), .. }
            && request.calls == simulation_calls(verifier, query, verification, trade)
            && request.block == block && request.overrides.balances == Seq::<
            AccountBalanceOverride,
        >::empty() && request.overrides.storage == seq![
            override_at(
                OverrideRequest {
                    token: query.sell_token,
                    target: OverrideTarget::Balance { holder: verification.trader },
                    amount: sell_amount(query, trade),
                },
                balance_slot,
            ),
            override_at(
                OverrideRequest {
                    token: query.sell_token,
                    target: OverrideTarget::Allowance {
                        owner: verification.trader,
                        spender: verifier.settlement,
                    },
                    amount: sell_amount(query, trade),
                },
                allowance_slot,
            ),
        ],
{
    reveal_with_fuel(driven, 4);
    let requests = override_requests(verifier, query, verification, trade);
    assert(requests.len() == 2);
    let progress = resumed(
        verifier,
        known,
        awaiting_block(query, verification, trade),
        EventView::Block(block),
    );
    match progress {
        ProgressView::Pending { action: ActionView::Simulate(request), .. } => {
            assert(request.overrides.storage =~= seq![
                override_at(requests[0], balance_slot),
                override_at(requests[1], allowance_slot),
            ]);
        },
        _ => {},
    }
}

/// Where overrides are off for the sell token, nothing configured and
/// detection disabled, the trade is simulated on the trader's real balance
/// and allowance: no storage is overridden.
pub proof fn law_no_override_when_disabled(
    verifier: TradeVerifier,
    known: BalanceOverridesView,
    query: PriceQuery,
    verification: VerificationView,
    trade: TradeKindView,
    block: BlockContext,
)
    requires
        !known.autodetect,
        !known.explicit_balances.contains_key(query.sell_token),
        !known.explicit_allowances.contains_key(query.sell_token),
        !known.explicit_balances.contains_key(query.buy_token),
    ensures
        resumed(
            verifier,
            known,
            awaiting_block(query, verification, trade),
            EventView::Block(block),
        ) matches ProgressView::Pending { action: ActionView::Simulate(request), .. }
            && request.calls == simulation_calls(verifier, query, verification, trade)
            && request.overrides.storage == Seq::<StorageOverride>::empty(),
{
    reveal_with_fuel(driven, 5);
}

/// The gas that two runs of calls use in sum is the sum of what each uses.
pub proof fn lemma_total_gas_concat(a: Seq<CallResultView>, b: Seq<CallResultView>)
    ensures
        total_gas(a + b) == total_gas(a) + total_gas(b),
    decreases b.len(),
{
    if b.len() == 0 {
        assert(a + b =~= a);
    } else {
        lemma_total_gas_concat(a, b.drop_last());
        assert((a + b).drop_last() =~= a + b.drop_last());
    }
}

/// Calls that use no gas use none in sum.
pub proof fn lemma_total_gas_of_idle_calls(calls: Seq<CallResultView>)
    requires
        forall|i: int| 0 <= i < calls.len() ==> (#[trigger] calls[i]).gas_used == 0,
    ensures
        total_gas(calls) == 0,
    decreases calls.len(),
{
    if calls.len() > 0 {
        lemma_total_gas_of_idle_calls(calls.drop_last());
    }
}

/// Hooks without effect leave no trace in what a simulation shows: where the
/// calls of the hooks neither revert nor use gas, the results with them
/// summarize to what the results without them summarize to.
pub proof fn law_idle_hooks_leave_summary_unchanged(
    kind: OrderKind,
    before: CallResultView,
    hooks: Seq<CallResultView>,
    rest: Seq<CallResultView>,
    after: CallResultView,
)
    requires
        forall|i: int|
            0 <= i < hooks.len() ==> !(#[trigger] hooks[i]).reverted && hooks[i].gas_used == 0,
    ensures
        summary_of(kind, seq![before] + hooks + rest + seq![after]) == summary_of(
            kind,
            seq![before] + rest + seq![after],
        ),
{
    let with = seq![before] + hooks + rest + seq![after];
    let without = seq![before] + rest + seq![after];
    assert(with.subrange(1, with.len() - 1) =~= hooks + rest);
    assert(without.subrange(1, without.len() - 1) =~= rest);
    lemma_total_gas_concat(hooks, rest);
    lemma_total_gas_of_idle_calls(hooks);
    if any_reverted(with) {
        let i = choose|i: int| 0 <= i < with.len() && #[trigger] with[i].reverted;
        if i == 0 {
            assert(without[0].reverted);
        } else if i <= hooks.len() {
            assert(with[i] == hooks[i - 1]);
        } else {
            assert(without[i - hooks.len()] == with[i]);
            assert(without[i - hooks.len()].reverted);
        }
    }
    if any_reverted(without) {
        let i = choose|i: int| 0 <= i < without.len() && #[trigger] without[i].reverted;
        if i == 0 {
            assert(with[0].reverted);
        } else {
            assert(with[i + hooks.len()] == without[i]);
            assert(with[i + hooks.len()].reverted);
        }
    }
}

/// Verification is insensitive to pre-interactions without effect: the
/// batch with them is the batch without them with their calls put in right
/// after the first balance query, and where those calls neither revert nor
/// use gas, the estimate is marked verified with them exactly if it is
/// without them, and names the same amount and gas.
pub proof fn law_verified_ignores_idle_hooks(
    verifier: TradeVerifier,
    query: PriceQuery,
    with_hooks: VerificationView,
    without_hooks: VerificationView,
    trade: TradeKindView,
    hooks: Seq<InteractionView>,
    before: CallResultView,
    hook_results: Seq<CallResultView>,
    rest: Seq<CallResultView>,
    after: CallResultView,
)
    requires
        with_hooks == (VerificationView {
            pre_interactions: hooks + without_hooks.pre_interactions,
            ..without_hooks
        }),
        forall|i: int|
            0 <= i < hook_results.len() ==> !(#[trigger] hook_results[i]).reverted
                && hook_results[i].gas_used == 0,
    ensures
        simulation_calls(verifier, query, with_hooks, trade) == seq![
            measurement_call(query, without_hooks),
        ] + hooks + simulation_calls(verifier, query, without_hooks, trade).drop_first(),
        reconciled(
            verifier.reconciler,
            with_hooks,
            trade,
            summary_of(query.kind, seq![before] + hook_results + rest + seq![after]),
        ).verified == reconciled(
            verifier.reconciler,
            without_hooks,
            trade,
            summary_of(query.kind, seq![before] + rest + seq![after]),
        ).verified,
        reconciled(
            verifier.reconciler,
            with_hooks,
            trade,
            summary_of(query.kind, seq![before] + hook_results + rest + seq![after]),
        ).out_amount == reconciled(
            verifier.reconciler,
            without_hooks,
            trade,
            summary_of(query.kind, seq![before] + rest + seq![after]),
        ).out_amount,
        reconciled(
            verifier.reconciler,
            with_hooks,
            trade,
            summary_of(query.kind, seq![before] + hook_results + rest + seq![after]),
        ).gas == reconciled(
            verifier.reconciler,
            without_hooks,
            trade,
            summary_of(query.kind, seq![before] + rest + seq![after]),
        ).gas,
{
    law_idle_hooks_leave_summary_unchanged(query.kind, before, hook_results, rest, after);
    assert(simulation_calls(verifier, query, with_hooks, trade) =~= seq![
        measurement_call(query, without_hooks),
    ] + hooks + simulation_calls(verifier, query, without_hooks, trade).drop_first());
}

/// An amount that was measured is positive.
pub proof fn law_measured_amount_is_positive(kind: OrderKind, before: Seq<u8>, after: Seq<u8>)
    ensures
        measured_amount(kind, before, after) matches Some(amount) ==> amount@ > 0,
{
    if measured_amount(kind, before, after) is Some {
        lemma_word_bound(before);
        lemma_word_bound(after);
        let b = be_value(before);
        let a = be_value(after);
        if a > b {
            lemma_view_of_u256((a - b) as nat);
        } else {
            lemma_view_of_u256((b - a) as nat);
        }
    }
}

/// The amount of an estimate is positive: whatever comes in for a session
/// whose claim names a positive amount, an estimate that results names a
/// positive amount, and a session that goes on carries the same query,
/// context and claim.
pub proof fn law_estimate_amount_is_positive(
    verifier: TradeVerifier,
    known: BalanceOverridesView,
    session: SessionView,
    event: EventView,
)
    requires
        session.wf(),
    ensures
        resumed(verifier, known, session, event) matches ProgressView::Done(Ok(estimate))
            ==> estimate.out_amount@ > 0,
        resumed(verifier, known, session, event) matches ProgressView::Pending { session: after, .. }
            ==> after.wf() && after.query == session.query && after.verification
            == session.verification && after.trade == session.trade,
        started(session.query, session.verification, session.trade) matches ProgressView::Done(
            Ok(estimate),
        ) ==> estimate.out_amount@ > 0,
{
    match event {
        EventView::Block(block) => {
            law_walk_ends_in_simulation(
                verifier,
                known,
                session.query,
                session.verification,
                session.trade,
                block,
                override_requests(verifier, session.query, session.verification, session.trade),
                0,
                0,
                StateOverridesView {
                    storage: Seq::empty(),
                    balances: native_overrides(
                        verifier,
                        session.query,
                        session.verification,
                        session.trade,
                    ),
                },
            );
        },
        EventView::Simulated(results) => {
            match session.phase {
                PhaseView::Resolving { block, requests, next, candidate, overrides } => {
                    if next < requests.len() && results.len() == 1 {
                        law_walk_ends_in_simulation(
                            verifier,
                            after_probe(known, requests[next as int], candidate, results[0]),
                            session.query,
                            session.verification,
                            session.trade,
                            block,
                            requests,
                            next,
                            next_candidate(candidate, results[0]),
                            overrides,
                        );
                    }
                },
                PhaseView::Simulating { calls } => {
                    if results.len() == calls && results.len() >= 2 {
                        law_measured_amount_is_positive(
                            session.query.kind,
                            results.first().return_data,
                            results.last().return_data,
                        );
                    }
                },
                _ => {},
            }
        },
        EventView::Failed(_) => {},
    }
}

} // verus!
