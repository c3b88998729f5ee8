//! One invocation of the engine, as a machine that never waits: it is handed
//! what a collaborator answered and says what to do next.
//!
//! An invocation resolves the market, builds the order, sends one transaction
//! and ends. No state is entered twice and nothing is sent a second time.

use crate::address::{Address, Config};
use crate::assemble::{assemble, AssembledTransaction};
use crate::collateral::Market;
use crate::error::{EngineError, EngineErrorView, ErrorKind};
use crate::instruction::{views, Instruction};
use crate::order::{build_order, OrderIntent, OrderPlan, OrderRequest};
use vstd::prelude::*;

verus! {

/// Where in the pipeline an invocation failed.
#[derive(Clone, Copy, Debug, PartialEq, Eq, Structural)]
pub enum Stage {
    Resolve,
    Build,
    Send,
}

/// How an invocation ended.
#[derive(Clone, Debug, PartialEq, Eq)]
pub enum ExecutionOutcome {
    Success { transaction_id: String, order_address: Address },
    Failure { stage: Stage, cause: EngineError },
}

/// Where an invocation stands.
#[derive(Clone, Debug, PartialEq, Eq)]
pub enum State {
    /// Waiting for the market that the intent names.
    Resolving { intent: OrderIntent },
    /// Waiting for the chain client to build the order; the wrap is kept for assembly.
    Building { wrap: Vec<Instruction> },
    /// Waiting for the one submission to be answered.
    Sending { order_address: Address },
    Succeeded,
    Failed(Stage),
}

/// What a collaborator answered.
#[derive(Clone, Debug, PartialEq, Eq)]
pub enum Event {
    MarketFound(Market),
    MarketMissing(String),
    OrderBuilt { order_address: Address, instructions: Vec<Instruction> },
    BuildRefused(String),
    Sent(String),
    SendRefused(String),
}

/// What the caller does next.
#[derive(Clone, Debug, PartialEq, Eq)]
pub enum Action {
    /// Have the chain client build this order.
    BuildOrder(OrderRequest),
    /// Submit this transaction, once and whole.
    Submit(AssembledTransaction),
    /// Hand this outcome back; the invocation is over.
    Finish(ExecutionOutcome),
}

impl Stage {
    /// The kind of failure that a collaborator's refusal at this stage stands for.
    pub open spec fn kind(self) -> ErrorKind {
        match self {
            Stage::Resolve => ErrorKind::MarketNotFound,
            Stage::Build => ErrorKind::BuildFailed,
            Stage::Send => ErrorKind::SubmissionFailed,
        }
    }

    /// The stage at which a failure of the given kind is reported: a market
    /// that is not found fails resolution, a refused submission fails
    /// sending, anything else fails the build.
    pub open spec fn of_kind(kind: ErrorKind) -> Stage {
        match kind {
            ErrorKind::MarketNotFound => Stage::Resolve,
            ErrorKind::SubmissionFailed => Stage::Send,
            _ => Stage::Build,
        }
    }
}

impl State {
    /// How far the invocation has come. Every step raises it.
    pub open spec fn rank(self) -> nat {
        match self {
            State::Resolving { .. } => 0,
            State::Building { .. } => 1,
            State::Sending { .. } => 2,
            State::Succeeded => 3,
            State::Failed(_) => 3,
        }
    }

    /// Whether the invocation is over.
    pub open spec fn is_final(self) -> bool {
        self is Succeeded || self is Failed
    }
}

/// Whether `next` reports the failure `cause` at `stage` and ends the invocation.
pub open spec fn fails_with(next: (State, Action), stage: Stage, cause: EngineErrorView) -> bool {
    &&& next.0 == State::Failed(stage)
    &&& match next.1 {
        Action::Finish(ExecutionOutcome::Failure { stage: s, cause: c }) => s == stage && c@ == cause,
        _ => false,
    }
}

/// Whether `next` reports the collaborator's refusal at `stage`, its words kept as they came.
pub open spec fn refused_at(next: (State, Action), stage: Stage, words: Seq<char>) -> bool {
    fails_with(next, stage, EngineErrorView { kind: stage.kind(), detail: words })
}

/// Whether `next` is the step from resolution on `market`: on to the build
/// with the planned request, the wrap kept aside, or the end with the
/// failure that planning gave, at the stage of its kind: resolution for a
/// market other than the one named, the build for anything else.
pub open spec fn resolved(
    next: (State, Action),
    config: Config,
    principal: Address,
    intent: OrderIntent,
    market: Market,
) -> bool {
    let possible = match intent {
        OrderIntent::Position(p) => p.buildable(config, market),
        OrderIntent::Swap(_) => true,
    };
    if possible {
        match next {
            (State::Building { wrap }, Action::BuildOrder(request)) => match intent {
                OrderIntent::Position(p) => p.plans(OrderPlan { request, wrap }, config, market, principal),
                OrderIntent::Swap(s) => s.plans(OrderPlan { request, wrap }, principal),
            },
            _ => false,
        }
    } else {
        match (intent, next.1) {
            (
                OrderIntent::Position(p),
                Action::Finish(ExecutionOutcome::Failure { stage, cause }),
            ) => {
                &&& p.answered_by(Err(cause), config, market, principal)
                &&& stage == Stage::of_kind(cause.kind)
                &&& next.0 == State::Failed(stage)
            },
            _ => false,
        }
    }
}

/// Whether `next` is the step from a built order: on to sending, with the one
/// transaction that holds the wrap and then the order's instructions.
pub open spec fn built(
    next: (State, Action),
    wrap: Seq<Instruction>,
    order_address: Address,
    instructions: Seq<Instruction>,
) -> bool {
    &&& next.0 == (State::Sending { order_address })
    &&& match next.1 {
        Action::Submit(tx) => {
            &&& tx.wf()
            &&& tx.all() == views(wrap) + views(instructions)
            &&& tx.wrap_len == wrap.len()
        },
        _ => false,
    }
}

/// Whether `next` is the step from an accepted submission: success, with the
/// transaction's identifier and the order's address.
pub open spec fn sent(next: (State, Action), order_address: Address, transaction_id: Seq<char>) -> bool {
    &&& next.0 == State::Succeeded
    &&& match next.1 {
        Action::Finish(ExecutionOutcome::Success { transaction_id: t, order_address: a }) => t@
            == transaction_id && a == order_address,
        _ => false,
    }
}

/// Whether `r` is the step that `state` takes on `event`. An event that the
/// state does not wait for is refused with `None`; a final state waits for none.
pub open spec fn steps(
    r: Option<(State, Action)>,
    config: Config,
    principal: Address,
    state: State,
    event: Event,
) -> bool {
    match (state, event) {
        (State::Resolving { intent }, Event::MarketFound(market)) => r is Some && resolved(
            r->0,
            config,
            principal,
            intent,
            market,
        ),
        (State::Resolving { .. }, Event::MarketMissing(words)) => r is Some && refused_at(
            r->0,
            Stage::Resolve,
            words@,
        ),
        (State::Building { wrap }, Event::OrderBuilt { order_address, instructions }) => r is Some
            && built(r->0, wrap@, order_address, instructions@),
        (State::Building { .. }, Event::BuildRefused(words)) => r is Some && refused_at(
            r->0,
            Stage::Build,
            words@,
        ),
        (State::Sending { order_address }, Event::Sent(transaction_id)) => r is Some && sent(
            r->0,
            order_address,
            transaction_id@,
        ),
        (State::Sending { .. }, Event::SendRefused(words)) => r is Some && refused_at(
            r->0,
            Stage::Send,
            words@,
        ),
        _ => r is None,
    }
}

/// Every step moves the invocation forward: no state is entered twice, and
/// a final state takes no step.
pub proof fn lemma_steps_forward(
    r: Option<(State, Action)>,
    config: Config,
    principal: Address,
    state: State,
    event: Event,
)
    requires
        steps(r, config, principal, state, event),
    ensures
        r is Some ==> r.unwrap().0.rank() > state.rank(),
        state.is_final() ==> r is None,
{
}

/// The wrap and the order leave together: the only step that hands out a
/// transaction is the one from building to sending, and that transaction
/// holds the whole wrap directly in front of the whole order.
pub proof fn lemma_wrap_travels_with_order(
    r: Option<(State, Action)>,
    config: Config,
    principal: Address,
    state: State,
    event: Event,
)
    requires
        steps(r, config, principal, state, event),
        r is Some,
        r.unwrap().1 is Submit,
    ensures
        state is Building,
        event is OrderBuilt,
        r.unwrap().0 is Sending,
        r.unwrap().1->Submit_0.all() == views(state->Building_wrap@) + views(
            event->OrderBuilt_instructions@,
        ),
{
}

/// An invocation submits at most once: the step after a submission ends the
/// invocation and hands out no second transaction.
pub proof fn lemma_single_submission(
    config: Config,
    principal: Address,
    state: State,
    event: Event,
    first: Option<(State, Action)>,
    answer: Event,
    second: Option<(State, Action)>,
)
    requires
        steps(first, config, principal, state, event),
        first is Some,
        first.unwrap().1 is Submit,
        steps(second, config, principal, first.unwrap().0, answer),
        second is Some,
    ensures
        second.unwrap().1 is Finish,
        second.unwrap().0.is_final(),
{
}

/// The stage at which a failure of the given kind is reported.
pub fn stage_of_kind(kind: ErrorKind) -> (stage: Stage)
    ensures
        stage == Stage::of_kind(kind),
{
    match kind {
        ErrorKind::MarketNotFound => Stage::Resolve,
        ErrorKind::SubmissionFailed => Stage::Send,
        _ => Stage::Build,
    }
}

/// The end of an invocation that a collaborator refused at `stage`: the
/// failure names the stage and carries the collaborator's words unchanged.
pub fn refuse(stage: Stage, words: String) -> (next: (State, Action))
    ensures
        refused_at(next, stage, words@),
{
    let kind = match stage {
        Stage::Resolve => ErrorKind::MarketNotFound,
        Stage::Build => ErrorKind::BuildFailed,
        Stage::Send => ErrorKind::SubmissionFailed,
    };
    let cause = EngineError::new(kind, words);
    (State::Failed(stage), Action::Finish(ExecutionOutcome::Failure { stage, cause }))
}

/// The outcome of the one submission: success with the transaction's
/// identifier and the order's address, or a failure at sending that carries
/// the collaborator's words.
pub fn execute(submitted: Result<String, String>, order_address: Address) -> (outcome: ExecutionOutcome)
    ensures
        match submitted {
            Ok(id) => match outcome {
                ExecutionOutcome::Success { transaction_id, order_address: a } => transaction_id@ == id@
                    && a == order_address,
                _ => false,
            },
            Err(words) => match outcome {
                ExecutionOutcome::Failure { stage, cause } => stage == Stage::Send && cause@ == (
                EngineErrorView { kind: ErrorKind::SubmissionFailed, detail: words@ }),
                _ => false,
            },
        },
{
    match submitted {
        Ok(transaction_id) => ExecutionOutcome::Success { transaction_id, order_address },
        Err(words) => ExecutionOutcome::Failure {
            stage: Stage::Send,
            cause: EngineError::new(ErrorKind::SubmissionFailed, words),
        },
    }
}

/// Starts an invocation, before anything is asked of the network: the state
/// that waits for the market, and the identity of the market to look up.
/// Fails with `InvalidInput` exactly when the intent is an order on a
/// position that lacks what its family requires.
pub fn begin(intent: OrderIntent) -> (start: Result<(State, Address), EngineError>)
    ensures
        start.is_ok() == intent.valid(),
        start.is_ok() ==> start.unwrap().0 == (State::Resolving { intent }) && start.unwrap().1
            == intent.market_token(),
        start.is_err() ==> start.unwrap_err()@ == (EngineErrorView {
            kind: ErrorKind::InvalidInput,
            detail: "the order lacks what its family requires"@,
        }),
{
    let market_token = match &intent {
        OrderIntent::Position(p) => {
            match p.validate() {
                Ok(()) => {},
                Err(e) => {
                    return Err(e);
                },
            }
            p.market_token
        },
        OrderIntent::Swap(s) => s.market_token,
    };
    Ok((State::Resolving { intent }, market_token))
}

/// Takes one step of an invocation.
///
/// The step is the one that [`steps`] describes. Every step moves the
/// invocation forward, so no state is entered twice; a transaction is handed
/// out for submission only on the step from building to sending, so an
/// invocation submits at most once, and the wrap never travels apart from
/// its order.
pub fn advance(config: &Config, principal: &Address, state: State, event: Event) -> (r: Option<
    (State, Action),
>)
    ensures
        steps(r, *config, *principal, state, event),
        r is Some ==> r.unwrap().0.rank() > state.rank(),
        r is Some ==> (r.unwrap().1 is Submit <==> state is Building && event is OrderBuilt),
        r is Some ==> (r.unwrap().1 is Finish <==> r.unwrap().0.is_final()),
        state.is_final() ==> r is None,
{
    match state {
        State::Resolving { intent } => match event {
            Event::MarketFound(market) => match build_order(config, principal, &market, intent) {
                Ok(plan) => Some((State::Building { wrap: plan.wrap }, Action::BuildOrder(plan.request))),
                Err(cause) => {
                    let stage = stage_of_kind(cause.kind);
                    Some((State::Failed(stage), Action::Finish(ExecutionOutcome::Failure { stage, cause })))
                },
            },
            Event::MarketMissing(words) => Some(refuse(Stage::Resolve, words)),
            _ => None,
        },
        State::Building { wrap } => match event {
            Event::OrderBuilt { order_address, instructions } => Some(
                (State::Sending { order_address }, Action::Submit(assemble(instructions, wrap))),
            ),
            Event::BuildRefused(words) => Some(refuse(Stage::Build, words)),
            _ => None,
        },
        State::Sending { order_address } => match event {
            Event::Sent(transaction_id) => Some(
                (State::Succeeded, Action::Finish(execute(Ok(transaction_id), order_address))),
            ),
            Event::SendRefused(words) => Some(refuse(Stage::Send, words)),
            _ => None,
        },
        _ => None,
    }
}

} // verus!
