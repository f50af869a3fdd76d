//! The trade verifier: the protocol that takes a claimed trade to an
//! estimate.
//!
//! The verifier never talks to a node. [`TradeVerifier::verify`] and
//! [`TradeVerifier::resume`] say what has to be done next, as an [`Action`];
//! the caller does it and hands the outcome back as an [`Event`], until the
//! verification is [`Progress::Done`].

use crate::abi::{balance_of_calldata, encode_balance_of};
use crate::address::Address;
use crate::chain::{
    AccountBalanceOverride, BlockContext, CallResult, CallResultView, SimulationRequest,
    SimulationRequestView, StateOverrides, StateOverridesView, StorageOverride,
};
use crate::laws::{law_estimate_amount_is_positive, law_known_slots_only_grow};
use crate::model::{
    Estimate, EstimateView, Interaction, InteractionView, OrderKind, PriceQuery, TradeKind,
    TradeKindView, Verification, VerificationError, VerificationView,
};
use crate::overrides::{
    absorb_probe, after_probe, next_candidate, resolution, resolve, BalanceOverrides,
    BalanceOverridesView, OverrideRequest, OverrideTarget, Resolution, ResolutionView,
};
use crate::reconciler::{
    claim_estimate, echo_claim, reconcile, reconciled, summarize, summary_of, ReconcilerConfig,
};
use crate::sequencer::{call_batch, sell_amount, sequence, trade_sell_amount};
use crate::u256::U256;
use vstd::prelude::*;

verus! {

/// The configuration of the engine.
#[derive(Clone, Copy, Debug, PartialEq, Eq)]
pub struct TradeVerifier {
    /// The contract that settles trades.
    pub settlement: Address,
    /// The address that stands for the chain's native currency.
    pub native_token: Address,
    /// Whether the receiver's balance of the buy token is brought to a known
    /// baseline before the trade is simulated.
    pub validate_buy_side: bool,
    pub reconciler: ReconcilerConfig,
}

/// What the caller has to do next.
#[derive(Debug, PartialEq, Eq)]
pub enum Action {
    /// Read the latest published block and answer with [`Event::Block`].
    ReadBlock,
    /// Run this simulation, which probes for a storage slot, and answer
    /// with [`Event::Simulated`].
    Probe(SimulationRequest),
    /// Run this simulation of the trade and answer with [`Event::Simulated`].
    Simulate(SimulationRequest),
}

/// What an [`Action`] holds.
pub enum ActionView {
    ReadBlock,
    Probe(SimulationRequestView),
    Simulate(SimulationRequestView),
}

impl View for Action {
    type V = ActionView;

    open spec fn view(&self) -> ActionView {
        match self {
            Action::ReadBlock => ActionView::ReadBlock,
            Action::Probe(request) => ActionView::Probe(request@),
            Action::Simulate(request) => ActionView::Simulate(request@),
        }
    }
}

/// What came of the action that was asked for.
#[derive(Debug, PartialEq, Eq)]
pub enum Event {
    /// The latest published block.
    Block(BlockContext),
    /// The results of the simulated calls, one for each call, in order.
    Simulated(Vec<CallResult>),
    /// The infrastructure could not do what was asked.
    Failed(VerificationError),
}

/// What an [`Event`] holds.
pub enum EventView {
    Block(BlockContext),
    Simulated(Seq<CallResultView>),
    Failed(VerificationError),
}

impl View for Event {
    type V = EventView;

    open spec fn view(&self) -> EventView {
        match self {
            Event::Block(block) => EventView::Block(*block),
            Event::Simulated(results) => EventView::Simulated(results.deep_view()),
            Event::Failed(error) => EventView::Failed(*error),
        }
    }
}

/// Where a verification stands.
#[derive(Debug, PartialEq, Eq)]
pub enum Phase {
    /// The block to simulate at is being read.
    AwaitingBlock,
    /// The override requests before `next` are dealt with; a probe of
    /// candidate slot `candidate` for request `next` is under way.
    Resolving {
        block: BlockContext,
        requests: Vec<OverrideRequest>,
        next: usize,
        candidate: u64,
        overrides: StateOverrides,
    },
    /// The simulation of the trade, a batch of `calls` calls, is under way.
    Simulating { calls: usize },
}

/// What a [`Phase`] holds.
pub enum PhaseView {
    AwaitingBlock,
    Resolving {
        block: BlockContext,
        requests: Seq<OverrideRequest>,
        next: nat,
        candidate: u64,
        overrides: StateOverridesView,
    },
    Simulating { calls: nat },
}

impl View for Phase {
    type V = PhaseView;

    open spec fn view(&self) -> PhaseView {
        match self {
            Phase::AwaitingBlock => PhaseView::AwaitingBlock,
            Phase::Resolving { block, requests, next, candidate, overrides } => PhaseView::Resolving {
                block: *block,
                requests: requests@,
                next: *next as nat,
                candidate: *candidate,
                overrides: overrides@,
            },
            Phase::Simulating { calls } => PhaseView::Simulating { calls: *calls as nat },
        }
    }
}

/// One verification under way. Nothing of it outlives the verification.
#[derive(Debug, PartialEq, Eq)]
pub struct Session {
    pub query: PriceQuery,
    pub verification: Verification,
    pub trade: TradeKind,
    pub phase: Phase,
}

/// What a [`Session`] holds.
pub struct SessionView {
    pub query: PriceQuery,
    pub verification: VerificationView,
    pub trade: TradeKindView,
    pub phase: PhaseView,
}

impl SessionView {
    /// The amounts of the query and of the claim are positive.
    pub open spec fn wf(&self) -> bool {
        self.query.wf() && self.trade.wf()
    }
}

impl Session {
    /// Whether the amounts of the query and of the claim are positive.
    pub fn is_valid(&self) -> (r: bool)
        ensures
            r == self@.wf(),
    {
        self.query.is_valid() && self.trade.is_valid()
    }
}

impl View for Session {
    type V = SessionView;

    open spec fn view(&self) -> SessionView {
        SessionView {
            query: self.query,
            verification: self.verification@,
            trade: self.trade@,
            phase: self.phase@,
        }
    }
}

/// How far a verification has come.
#[derive(Debug, PartialEq, Eq)]
pub enum Progress {
    /// `action` is to be performed and its outcome handed to
    /// [`TradeVerifier::resume`] together with `session`.
    Pending { session: Session, action: Action },
    /// The verification is over.
    Done(Result<Estimate, VerificationError>),
}

/// What a [`Progress`] holds.
pub enum ProgressView {
    Pending { session: SessionView, action: ActionView },
    Done(Result<EstimateView, VerificationError>),
}

impl View for Progress {
    type V = ProgressView;

    open spec fn view(&self) -> ProgressView {
        match self {
            Progress::Pending { session, action } => ProgressView::Pending {
                session: session@,
                action: action@,
            },
            Progress::Done(Ok(estimate)) => ProgressView::Done(Ok(estimate@)),
            Progress::Done(Err(error)) => ProgressView::Done(Err(*error)),
        }
    }
}

/// The origin that exempts a trade from simulation.
pub open spec fn bypass_origin() -> Address {
    Address { hi: 0, mid: 0, lo: 0 }
}

/// Whether the trade is exempt from simulation: it names the zero address as
/// its origin. Trades of one class of market makers do, and cannot be
/// simulated by this engine.
pub open spec fn bypasses_simulation(trade: TradeKindView) -> bool {
    trade.tx_origin() == Some(bypass_origin())
}

/// The balance query round the settlement: for a sell, the receiver's
/// balance of the buy token; for a buy, the trader's balance of the sell
/// token.
pub open spec fn measurement_call(query: PriceQuery, verification: VerificationView)
    -> InteractionView {
    InteractionView {
        target: match query.kind {
            OrderKind::Sell => query.buy_token,
            OrderKind::Buy => query.sell_token,
        },
        data: balance_of_calldata(
            match query.kind {
                OrderKind::Sell => verification.effective_receiver(),
                OrderKind::Buy => verification.trader,
            },
        ),
        value: U256 { w3: 0, w2: 0, w1: 0, w0: 0 },
    }
}

/// The batch that is simulated: the calls of the settlement between two
/// balance queries.
pub open spec fn simulation_calls(
    verifier: TradeVerifier,
    query: PriceQuery,
    verification: VerificationView,
    trade: TradeKindView,
) -> Seq<InteractionView> {
    seq![measurement_call(query, verification)] + call_batch(
        query,
        verification,
        trade,
        verifier.settlement,
    ) + seq![measurement_call(query, verification)]
}

/// The account balances to override: the trader's native balance, where the
/// trader pays in native currency out of their own account.
pub open spec fn native_overrides(
    verifier: TradeVerifier,
    query: PriceQuery,
    verification: VerificationView,
    trade: TradeKindView,
) -> Seq<AccountBalanceOverride> {
    if verification.trader != verifier.settlement && query.sell_token == verifier.native_token {
        seq![
            AccountBalanceOverride {
                account: verification.trader,
                balance: sell_amount(query, trade),
            },
        ]
    } else {
        Seq::empty()
    }
}

/// What the sell side needs: the trader holds the amount sold and allows the
/// settlement contract to move it. Nothing is needed where the trader is the
/// settlement contract, nor in storage where the sell token is the native
/// currency.
pub open spec fn sell_side_requests(
    verifier: TradeVerifier,
    query: PriceQuery,
    verification: VerificationView,
    trade: TradeKindView,
) -> Seq<OverrideRequest> {
    if verification.trader == verifier.settlement || query.sell_token == verifier.native_token {
        Seq::empty()
    } else {
        seq![
            OverrideRequest {
                token: query.sell_token,
                target: OverrideTarget::Balance { holder: verification.trader },
                amount: sell_amount(query, trade),
            },
            OverrideRequest {
                token: query.sell_token,
                target: OverrideTarget::Allowance {
                    owner: verification.trader,
                    spender: verifier.settlement,
                },
                amount: sell_amount(query, trade),
            },
        ]
    }
}

/// What validating the receiving side needs: the receiver starts out with
/// none of the buy token. Nothing is asked where that validation is off,
/// the buy token is the native currency or the receiver is the settlement
/// contract.
pub open spec fn buy_side_requests(
    verifier: TradeVerifier,
    query: PriceQuery,
    verification: VerificationView,
) -> Seq<OverrideRequest> {
    if verifier.validate_buy_side && query.buy_token != verifier.native_token
        && verification.effective_receiver() != verifier.settlement {
        seq![
            OverrideRequest {
                token: query.buy_token,
                target: OverrideTarget::Balance { holder: verification.effective_receiver() },
                amount: U256 { w3: 0, w2: 0, w1: 0, w0: 0 },
            },
        ]
    } else {
        Seq::empty()
    }
}

/// The storage overrides that a verification asks for, in the order in
/// which they are resolved.
pub open spec fn override_requests(
    verifier: TradeVerifier,
    query: PriceQuery,
    verification: VerificationView,
    trade: TradeKindView,
) -> Seq<OverrideRequest> {
    sell_side_requests(verifier, query, verification, trade) + buy_side_requests(
        verifier,
        query,
        verification,
    )
}

/// The simulation that probes candidate slot `write` with `call`.
pub open spec fn probe_request(call: InteractionView, write: StorageOverride, block: BlockContext)
    -> SimulationRequestView {
    SimulationRequestView {
        calls: seq![call],
        overrides: StateOverridesView { storage: seq![write], balances: Seq::empty() },
        block,
    }
}

/// Goes through the override requests from `next` on: a request whose slot
/// is known adds its override, one that cannot be had is passed over, and
/// the first one that needs a probe stops the walk with that probe. When
/// none is left the trade is simulated with the overrides gathered.
pub open spec fn driven(
    verifier: TradeVerifier,
    known: BalanceOverridesView,
    query: PriceQuery,
    verification: VerificationView,
    trade: TradeKindView,
    block: BlockContext,
    requests: Seq<OverrideRequest>,
    next: nat,
    candidate: u64,
    overrides: StateOverridesView,
) -> ProgressView
    decreases requests.len() - next,
{
    if next >= requests.len() {
        let calls = simulation_calls(verifier, query, verification, trade);
        ProgressView::Pending {
            session: SessionView {
                query,
                verification,
                trade,
                phase: PhaseView::Simulating { calls: calls.len() },
            },
            action: ActionView::Simulate(SimulationRequestView { calls, overrides, block }),
        }
    } else {
        match resolution(known, requests[next as int], candidate) {
            ResolutionView::Ready(found) => driven(
                verifier,
                known,
                query,
                verification,
                trade,
                block,
                requests,
                next + 1,
                0,
                StateOverridesView { storage: overrides.storage.push(found), ..overrides },
            ),
            ResolutionView::Unavailable => driven(
                verifier,
                known,
                query,
                verification,
                trade,
                block,
                requests,
                next + 1,
                0,
                overrides,
            ),
            ResolutionView::Probe { call, write } => ProgressView::Pending {
                session: SessionView {
                    query,
                    verification,
                    trade,
                    phase: PhaseView::Resolving { block, requests, next, candidate, overrides },
                },
                action: ActionView::Probe(probe_request(call, write, block)),
            },
        }
    }
}

/// Where a verification starts: a trade that is exempt is reported as
/// claimed, verified, with nothing asked of the caller; for any other the
/// block is read first.
pub open spec fn started(query: PriceQuery, verification: VerificationView, trade: TradeKindView)
    -> ProgressView {
    if bypasses_simulation(trade) {
        ProgressView::Done(Ok(claim_estimate(verification, trade, true)))
    } else {
        ProgressView::Pending {
            session: SessionView { query, verification, trade, phase: PhaseView::AwaitingBlock },
            action: ActionView::ReadBlock,
        }
    }
}

/// What is known of slots after `event` came in for `session`: a probe that
/// hit adds its candidate; nothing else changes anything.
pub open spec fn known_after(known: BalanceOverridesView, session: SessionView, event: EventView)
    -> BalanceOverridesView {
    match (session.phase, event) {
        (
            PhaseView::Resolving { requests, next, candidate, .. },
            EventView::Simulated(results),
        ) => if next < requests.len() && results.len() == 1 {
            after_probe(known, requests[next as int], candidate, results[0])
        } else {
            known
        },
        _ => known,
    }
}

/// How a verification goes on when `event` comes in for `session`.
///
/// - A failure of the infrastructure ends it with that error.
/// - The block, while it is awaited, starts the walk through the override
///   requests.
/// - The result of a probe is taken in and the walk goes on.
/// - The results of the trade's simulation, one for each call, are
///   summarized and reconciled with the claim.
/// - Anything else is a malformed answer.
pub open spec fn resumed(
    verifier: TradeVerifier,
    known: BalanceOverridesView,
    session: SessionView,
    event: EventView,
) -> ProgressView {
    match event {
        EventView::Failed(error) => ProgressView::Done(Err(error)),
        EventView::Block(block) => match session.phase {
            PhaseView::AwaitingBlock => driven(
                verifier,
                known,
                session.query,
                session.verification,
                session.trade,
                block,
                override_requests(verifier, session.query, session.verification, session.trade),
                0,
                0,
                StateOverridesView {
                    storage: Seq::empty(),
                    balances: native_overrides(
                        verifier,
                        session.query,
                        session.verification,
                        session.trade,
                    ),
                },
            ),
            _ => ProgressView::Done(Err(VerificationError::MalformedResponse)),
        },
        EventView::Simulated(results) => match session.phase {
            PhaseView::AwaitingBlock => ProgressView::Done(
                Err(VerificationError::MalformedResponse),
            ),
            PhaseView::Resolving { block, requests, next, candidate, overrides } => if next
                < requests.len() && results.len() == 1 {
                driven(
                    verifier,
                    after_probe(known, requests[next as int], candidate, results[0]),
                    session.query,
                    session.verification,
                    session.trade,
                    block,
                    requests,
                    next,
                    next_candidate(candidate, results[0]),
                    overrides,
                )
            } else {
                ProgressView::Done(Err(VerificationError::MalformedResponse))
            },
            PhaseView::Simulating { calls } => if results.len() == calls && results.len() >= 2 {
                ProgressView::Done(
                    Ok(
                        reconciled(
                            verifier.reconciler,
                            session.verification,
                            session.trade,
                            summary_of(session.query.kind, results),
                        ),
                    ),
                )
            } else {
                ProgressView::Done(Err(VerificationError::MalformedResponse))
            },
        },
    }
}

impl TradeVerifier {
    /// Whether the trade is exempt from simulation.
    pub fn is_bypassed(trade: &TradeKind) -> (r: bool)
        ensures
            r == bypasses_simulation(trade@),
    {
        match trade.tx_origin() {
            Some(origin) => origin.is_zero(),
            None => false,
        }
    }

    /// The balance query round the settlement.
    pub fn measurement(query: &PriceQuery, verification: &Verification) -> (r: Interaction)
        ensures
            r@ == measurement_call(*query, verification@),
    {
        let (token, account) = match query.kind {
            OrderKind::Sell => (query.buy_token, verification.effective_receiver()),
            OrderKind::Buy => (query.sell_token, verification.trader),
        };
        Interaction { target: token, data: encode_balance_of(&account), value: U256::zero() }
    }

    /// The batch that is simulated for the trade.
    pub fn batch(&self, query: &PriceQuery, verification: &Verification, trade: &TradeKind) -> (r:
        Vec<Interaction>)
        ensures
            r.deep_view() == simulation_calls(*self, *query, verification@, trade@),
    {
        let mut calls: Vec<Interaction> = Vec::new();
        calls.push(TradeVerifier::measurement(query, verification));
        let mut settlement_calls: Vec<Interaction> = sequence(
            query,
            verification,
            trade,
            &self.settlement,
        );
        let ghost inner = settlement_calls.deep_view();
        let ghost first = calls.deep_view();
        assert(first =~= seq![measurement_call(*query, verification@)]);
        calls.append(&mut settlement_calls);
        assert(calls.deep_view() =~= first + inner);
        calls.push(TradeVerifier::measurement(query, verification));
        assert(calls.deep_view() =~= first + inner + seq![measurement_call(*query, verification@)]);
        calls
    }

    /// The storage overrides that a verification asks for.
    pub fn plan(&self, query: &PriceQuery, verification: &Verification, trade: &TradeKind) -> (r:
        Vec<OverrideRequest>)
        ensures
            r@ == override_requests(*self, *query, verification@, trade@),
    {
        let mut requests: Vec<OverrideRequest> = Vec::new();
        if verification.trader != self.settlement && query.sell_token != self.native_token {
            let amount: U256 = trade_sell_amount(query, trade);
            requests.push(
                OverrideRequest {
                    token: query.sell_token,
                    target: OverrideTarget::Balance { holder: verification.trader },
                    amount,
                },
            );
            requests.push(
                OverrideRequest {
                    token: query.sell_token,
                    target: OverrideTarget::Allowance {
                        owner: verification.trader,
                        spender: self.settlement,
                    },
                    amount,
                },
            );
        }
        assert(requests@ =~= sell_side_requests(*self, *query, verification@, trade@));
        let receiver: Address = verification.effective_receiver();
        if self.validate_buy_side && query.buy_token != self.native_token && receiver
            != self.settlement {
            requests.push(
                OverrideRequest {
                    token: query.buy_token,
                    target: OverrideTarget::Balance { holder: receiver },
                    amount: U256::zero(),
                },
            );
        }
        assert(requests@ =~= override_requests(*self, *query, verification@, trade@));
        requests
    }

    /// The account balances to override.
    pub fn plan_native(&self, query: &PriceQuery, verification: &Verification, trade: &TradeKind)
        -> (r: Vec<AccountBalanceOverride>)
        ensures
            r@ == native_overrides(*self, *query, verification@, trade@),
    {
        let mut balances: Vec<AccountBalanceOverride> = Vec::new();
        if verification.trader != self.settlement && query.sell_token == self.native_token {
            balances.push(
                AccountBalanceOverride {
                    account: verification.trader,
                    balance: trade_sell_amount(query, trade),
                },
            );
        }
        assert(balances@ =~= native_overrides(*self, *query, verification@, trade@));
        balances
    }

    /// Starts the verification of a claimed trade. A trade that is exempt
    /// from simulation is done at once; for any other the block is asked for.
    pub fn verify(&self, query: PriceQuery, verification: Verification, trade: TradeKind) -> (r:
        Progress)
        ensures
            r@ == started(query, verification@, trade@),
            trade@.wf() ==> (r@ matches ProgressView::Done(Ok(estimate)) ==> estimate.out_amount@
                > 0),
    {
        if TradeVerifier::is_bypassed(&trade) {
            Progress::Done(Ok(echo_claim(verification, trade, true)))
        } else {
            Progress::Pending {
                session: Session { query, verification, trade, phase: Phase::AwaitingBlock },
                action: Action::ReadBlock,
            }
        }
    }

    fn drive(
        &self,
        known: &BalanceOverrides,
        query: PriceQuery,
        verification: Verification,
        trade: TradeKind,
        block: BlockContext,
        requests: Vec<OverrideRequest>,
        next: usize,
        candidate: u64,
        overrides: StateOverrides,
    ) -> (r: Progress)
        ensures
            r@ == driven(
                *self,
                known@,
                query,
                verification@,
                trade@,
                block,
                requests@,
                next as nat,
                candidate,
                overrides@,
            ),
    {
        let mut index: usize = next;
        let mut trying: u64 = candidate;
        let mut gathered = overrides;
        while index < requests.len()
            invariant
                driven(
                    *self,
                    known@,
                    query,
                    verification@,
                    trade@,
                    block,
                    requests@,
                    next as nat,
                    candidate,
                    overrides@,
                ) == driven(
                    *self,
                    known@,
                    query,
                    verification@,
                    trade@,
                    block,
                    requests@,
                    index as nat,
                    trying,
                    gathered@,
                ),
            decreases requests.len() - index,
        {
            match resolve(known, &requests[index], trying) {
                Resolution::Ready(found) => {
                    gathered.storage.push(found);
                    index += 1;
                    trying = 0;
                },
                Resolution::Unavailable => {
                    index += 1;
                    trying = 0;
                },
                Resolution::Probe { call, write } => {
                    let mut calls: Vec<Interaction> = Vec::new();
                    calls.push(call);
                    let mut storage: Vec<StorageOverride> = Vec::new();
                    storage.push(write);
                    let request = SimulationRequest {
                        calls,
                        overrides: StateOverrides { storage, balances: Vec::new() },
                        block,
                    };
                    assert(request@.calls =~= seq![call@]);
                    assert(request@ == probe_request(call@, write, block));
                    return Progress::Pending {
                        session: Session {
                            query,
                            verification,
                            trade,
                            phase: Phase::Resolving {
                                block,
                                requests,
                                next: index,
                                candidate: trying,
                                overrides: gathered,
                            },
                        },
                        action: Action::Probe(request),
                    };
                },
            }
        }
        let calls: Vec<Interaction> = self.batch(&query, &verification, &trade);
        let count: usize = calls.len();
        Progress::Pending {
            session: Session { query, verification, trade, phase: Phase::Simulating { calls: count } },
            action: Action::Simulate(SimulationRequest { calls, overrides: gathered, block }),
        }
    }

    /// Goes on with a verification: takes in what came of the action asked
    /// for last and says what is next. What is known of slots is read, and
    /// extended by a probe that hit.
    pub fn resume(&self, known: &mut BalanceOverrides, session: Session, event: Event) -> (r:
        Progress)
        ensures
            r@ == resumed(*self, old(known)@, session@, event@),
            final(known)@ == known_after(old(known)@, session@, event@),
            final(known)@.extends(old(known)@),
            session@.wf() ==> (r@ matches ProgressView::Done(Ok(estimate)) ==> estimate.out_amount@
                > 0),
            session@.wf() ==> (r@ matches ProgressView::Pending { session: after, .. }
                ==> after.wf()),
    {
        proof {
            law_known_slots_only_grow(known@, session@, event@);
            if session@.wf() {
                law_estimate_amount_is_positive(*self, known@, session@, event@);
            }
        }
        let Session { query, verification, trade, phase } = session;
        match event {
            Event::Failed(error) => Progress::Done(Err(error)),
            Event::Block(block) => match phase {
                Phase::AwaitingBlock => {
                    let requests = self.plan(&query, &verification, &trade);
                    let balances = self.plan_native(&query, &verification, &trade);
                    let overrides = StateOverrides { storage: Vec::new(), balances };
                    self.drive(known, query, verification, trade, block, requests, 0, 0, overrides)
                },
                _ => Progress::Done(Err(VerificationError::MalformedResponse)),
            },
            Event::Simulated(results) => match phase {
                Phase::AwaitingBlock => Progress::Done(Err(VerificationError::MalformedResponse)),
                Phase::Resolving { block, requests, next, candidate, overrides } => {
                    if next < requests.len() && results.len() == 1 {
                        let request: OverrideRequest = requests[next];
                        let following: u64 = absorb_probe(known, &request, candidate, &results[0]);
                        self.drive(
                            known,
                            query,
                            verification,
                            trade,
                            block,
                            requests,
                            next,
                            following,
                            overrides,
                        )
                    } else {
                        Progress::Done(Err(VerificationError::MalformedResponse))
                    }
                },
                Phase::Simulating { calls } => {
                    match summarize(query.kind, &results) {
                        Some(summary) => {
                            if results.len() == calls {
                                Progress::Done(
                                    Ok(reconcile(&self.reconciler, verification, trade, &summary)),
                                )
                            } else {
                                Progress::Done(Err(VerificationError::MalformedResponse))
                            }
                        },
                        None => Progress::Done(Err(VerificationError::MalformedResponse)),
                    }
                },
            },
        }
    }
}

} // verus!
