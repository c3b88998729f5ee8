//! Order intents and the requests built from them, one builder per family.
//!
//! A request names the collateral asset and the depositor's account outright:
//! nothing is left for the chain client to detect.

use crate::address::{Address, Config};
use crate::collateral::{resolve, select, CollateralSelection, Market};
use crate::error::{EngineError, EngineErrorView, ErrorKind};
use crate::instruction::{views, Instruction};
use crate::wrap::{maybe_wrap, wrap_matches, wrap_possible};
use vstd::prelude::*;

verus! {

/// Why a limit decrease is placed. Both purposes build the same request.
#[derive(Clone, Copy, Debug, PartialEq, Eq)]
pub enum Purpose {
    TakeProfit,
    StopLoss,
}

/// The families of orders on a position.
#[derive(Clone, Copy, Debug, PartialEq, Eq)]
pub enum PositionFamily {
    MarketIncrease,
    MarketDecrease,
    LimitIncrease,
    LimitDecrease(Purpose),
}

/// The families of orders that the engine builds.
#[derive(Clone, Copy, Debug, PartialEq, Eq)]
pub enum OrderFamily {
    MarketIncrease,
    MarketDecrease,
    LimitIncrease,
    LimitDecrease(Purpose),
    Swap,
}

impl PositionFamily {
    /// Whether orders of this family pay collateral in.
    pub open spec fn is_increase(self) -> bool {
        self is MarketIncrease || self is LimitIncrease
    }

    /// Whether orders of this family wait for a trigger price.
    pub open spec fn is_limit(self) -> bool {
        self is LimitIncrease || self is LimitDecrease
    }

    /// This family among all order families.
    pub open spec fn family(self) -> OrderFamily {
        match self {
            PositionFamily::MarketIncrease => OrderFamily::MarketIncrease,
            PositionFamily::MarketDecrease => OrderFamily::MarketDecrease,
            PositionFamily::LimitIncrease => OrderFamily::LimitIncrease,
            PositionFamily::LimitDecrease(p) => OrderFamily::LimitDecrease(p),
        }
    }
}

/// A request to open, grow, shrink or close a position, before it is built.
#[derive(Clone, Copy, Debug, PartialEq, Eq)]
pub struct PositionIntent {
    pub family: PositionFamily,
    pub market_token: Address,
    pub is_long: bool,
    pub is_collateral_long: bool,
    /// Collateral paid in, in the asset's smallest unit. Read by increases only.
    pub collateral_amount: u64,
    /// Change of the position's size, scaled. For a market decrease,
    /// the largest value asks for a full close.
    pub size_delta: u128,
    /// Scaled price at which a limit order executes. Read by limit orders only.
    pub trigger_price: Option<u128>,
    /// Collateral taken out. Read by decreases only; absent means none.
    pub withdrawal_amount: Option<u64>,
}

/// A request to convert one asset into another, before it is built.
#[derive(Clone, Debug, PartialEq, Eq)]
pub struct SwapIntent {
    pub market_token: Address,
    pub is_output_long: bool,
    pub input_asset: Address,
    pub input_amount: u64,
    /// Least output for which the swap may execute; absent for a swap at the prevailing rate.
    pub min_output_amount: Option<u64>,
    /// Markets to hop through before the final one.
    pub path: Vec<Address>,
}

/// The logical request behind an order.
#[derive(Clone, Debug, PartialEq, Eq)]
pub enum OrderIntent {
    Position(PositionIntent),
    Swap(SwapIntent),
}

/// What the chain's order builder is called with.
#[derive(Clone, Debug, PartialEq, Eq)]
pub struct OrderRequest {
    pub family: OrderFamily,
    pub market_token: Address,
    pub is_long: bool,
    /// For a swap: whether the output is the market's long asset.
    pub is_collateral_long: bool,
    /// Collateral paid in, taken out, or swapped in, by family.
    pub amount: u64,
    pub size_delta: u128,
    pub trigger_price: Option<u128>,
    pub min_output_amount: Option<u64>,
    /// The asset that backs the order and the account that supplies it, always set.
    pub collateral: CollateralSelection,
    pub swap_path: Vec<Address>,
}

/// A request together with the instructions that must run in front of it.
#[derive(Clone, Debug, PartialEq, Eq)]
pub struct OrderPlan {
    pub request: OrderRequest,
    pub wrap: Vec<Instruction>,
}

impl PositionIntent {
    /// Whether the intent carries what its family requires: an increase at
    /// market pays collateral in or grows the position; a limit increase has
    /// a positive size and a positive trigger price; a limit decrease has a
    /// positive size and a trigger price; a market decrease needs nothing.
    pub open spec fn valid(self) -> bool {
        match self.family {
            PositionFamily::MarketIncrease => self.collateral_amount > 0 || self.size_delta > 0,
            PositionFamily::MarketDecrease => true,
            PositionFamily::LimitIncrease => self.size_delta > 0 && self.trigger_price is Some
                && self.trigger_price->0 > 0,
            PositionFamily::LimitDecrease(_) => self.size_delta > 0 && self.trigger_price is Some,
        }
    }

    /// The collateral that the order pays in: none for a decrease.
    pub open spec fn paid_in(self) -> u64 {
        if self.family.is_increase() {
            self.collateral_amount
        } else {
            0
        }
    }

    /// The amount that the request carries: paid in by an increase, taken out by a decrease.
    pub open spec fn request_amount(self) -> u64 {
        if self.family.is_increase() {
            self.collateral_amount
        } else {
            match self.withdrawal_amount {
                Some(w) => w,
                None => 0,
            }
        }
    }

    /// The trigger price that the request carries: none for an order at market.
    pub open spec fn request_trigger(self) -> Option<u128> {
        if self.family.is_limit() {
            self.trigger_price
        } else {
            None
        }
    }

    /// Whether `request` is the one that this intent builds on `market` for `principal`.
    pub open spec fn builds(self, request: OrderRequest, market: Market, principal: Address) -> bool {
        &&& request.family == self.family.family()
        &&& request.market_token == self.market_token
        &&& request.is_long == self.is_long
        &&& request.is_collateral_long == self.is_collateral_long
        &&& request.amount == self.request_amount()
        &&& request.size_delta == self.size_delta
        &&& request.trigger_price == self.request_trigger()
        &&& request.min_output_amount is None
        &&& request.collateral.selects(principal, market.token(self.is_collateral_long))
        &&& request.swap_path@.len() == 0
    }

    /// Whether `plan` is the one that this intent builds: the request, and in
    /// front of it the wrap of what is paid in, where the collateral is native.
    pub open spec fn plans(self, plan: OrderPlan, config: Config, market: Market, principal: Address) -> bool {
        &&& self.builds(plan.request, market, principal)
        &&& wrap_matches(
            views(plan.wrap@),
            config,
            principal,
            market.token(self.is_collateral_long),
            plan.request.collateral.depositor_account,
            self.paid_in(),
        )
    }

    /// Whether a plan can be built at all on `market`.
    pub open spec fn buildable(self, config: Config, market: Market) -> bool {
        &&& self.valid()
        &&& market.market_token@ == self.market_token@
        &&& wrap_possible(config, market.token(self.is_collateral_long), self.paid_in())
    }

    /// Whether `r` is what building this intent must give: the plan where one
    /// can be built, else the first failure among an invalid intent, a market
    /// other than the one named, and a wrap that cannot be built.
    pub open spec fn answered_by(
        self,
        r: Result<OrderPlan, EngineError>,
        config: Config,
        market: Market,
        principal: Address,
    ) -> bool {
        &&& r.is_ok() == self.buildable(config, market)
        &&& r.is_ok() ==> self.plans(r.unwrap(), config, market, principal)
        &&& !self.valid() ==> r.is_err() && r.unwrap_err()@ == (EngineErrorView {
            kind: ErrorKind::InvalidInput,
            detail: "the order lacks what its family requires"@,
        })
        &&& self.valid() && market.market_token@ != self.market_token@ ==> r.is_err()
            && r.unwrap_err()@ == (EngineErrorView {
            kind: ErrorKind::MarketNotFound,
            detail: "the market is not the one the order names"@,
        })
        &&& self.valid() && market.market_token@ == self.market_token@ && !self.buildable(
            config,
            market,
        ) ==> r.is_err() && r.unwrap_err().kind == ErrorKind::BuildFailed
    }

    /// The intent to open or grow a position at the prevailing price.
    pub open spec fn market_increase(
        market_token: Address,
        is_long: bool,
        is_collateral_long: bool,
        collateral_amount: u64,
        size_delta: u128,
    ) -> PositionIntent {
        PositionIntent {
            family: PositionFamily::MarketIncrease,
            market_token,
            is_long,
            is_collateral_long,
            collateral_amount,
            size_delta,
            trigger_price: None,
            withdrawal_amount: None,
        }
    }

    /// The intent to shrink or close a position at the prevailing price.
    pub open spec fn market_decrease(
        market_token: Address,
        is_long: bool,
        is_collateral_long: bool,
        withdrawal_amount: u64,
        size_delta: u128,
    ) -> PositionIntent {
        PositionIntent {
            family: PositionFamily::MarketDecrease,
            market_token,
            is_long,
            is_collateral_long,
            collateral_amount: 0,
            size_delta,
            trigger_price: None,
            withdrawal_amount: Some(withdrawal_amount),
        }
    }

    /// The intent to open or grow a position once the price reaches `trigger_price`.
    pub open spec fn limit_increase(
        market_token: Address,
        is_long: bool,
        is_collateral_long: bool,
        collateral_amount: u64,
        size_delta: u128,
        trigger_price: u128,
    ) -> PositionIntent {
        PositionIntent {
            family: PositionFamily::LimitIncrease,
            market_token,
            is_long,
            is_collateral_long,
            collateral_amount,
            size_delta,
            trigger_price: Some(trigger_price),
            withdrawal_amount: None,
        }
    }

    /// The intent to shrink or close a position once the price passes `trigger_price`.
    pub open spec fn limit_decrease(
        purpose: Purpose,
        market_token: Address,
        is_long: bool,
        is_collateral_long: bool,
        withdrawal_amount: u64,
        size_delta: u128,
        trigger_price: u128,
    ) -> PositionIntent {
        PositionIntent {
            family: PositionFamily::LimitDecrease(purpose),
            market_token,
            is_long,
            is_collateral_long,
            collateral_amount: 0,
            size_delta,
            trigger_price: Some(trigger_price),
            withdrawal_amount: Some(withdrawal_amount),
        }
    }

    /// Checks the intent against what its family requires.
    pub fn validate(&self) -> (r: Result<(), EngineError>)
        ensures
            r.is_ok() == self.valid(),
            r.is_err() ==> r.unwrap_err()@ == (EngineErrorView {
                kind: ErrorKind::InvalidInput,
                detail: "the order lacks what its family requires"@,
            }),
    {
        let ok = match self.family {
            PositionFamily::MarketIncrease => self.collateral_amount > 0 || self.size_delta > 0,
            PositionFamily::MarketDecrease => true,
            PositionFamily::LimitIncrease => self.size_delta > 0 && match self.trigger_price {
                Some(p) => p > 0,
                None => false,
            },
            PositionFamily::LimitDecrease(_) => self.size_delta > 0 && self.trigger_price.is_some(),
        };
        if ok {
            Ok(())
        } else {
            Err(EngineError::with_text(ErrorKind::InvalidInput, "the order lacks what its family requires"))
        }
    }
}

impl SwapIntent {
    /// Whether `request` is the one that this intent builds for `principal`.
    pub open spec fn builds(self, request: OrderRequest, principal: Address) -> bool {
        &&& request.family == OrderFamily::Swap
        &&& request.market_token == self.market_token
        &&& !request.is_long
        &&& request.is_collateral_long == self.is_output_long
        &&& request.amount == self.input_amount
        &&& request.size_delta == 0
        &&& request.trigger_price is None
        &&& request.min_output_amount == self.min_output_amount
        &&& request.collateral.selects(principal, self.input_asset)
        &&& request.swap_path@ == self.path@
    }

    /// Whether `plan` is the one that this intent builds: the request, with nothing in front.
    pub open spec fn plans(self, plan: OrderPlan, principal: Address) -> bool {
        &&& self.builds(plan.request, principal)
        &&& plan.wrap@.len() == 0
    }
}

impl OrderIntent {
    /// Whether the intent carries what its family requires. A swap always does.
    pub open spec fn valid(self) -> bool {
        match self {
            OrderIntent::Position(p) => p.valid(),
            OrderIntent::Swap(_) => true,
        }
    }

    /// The share token of the market that the intent names.
    pub open spec fn market_token(self) -> Address {
        match self {
            OrderIntent::Position(p) => p.market_token,
            OrderIntent::Swap(s) => s.market_token,
        }
    }
}

/// Builds the plan of an order on a position.
///
/// The collateral is the market's asset on the chosen side, supplied from the
/// principal's associated account for it; an increase that pays in the native
/// asset is preceded by its wrap. Fails with `InvalidInput` when the intent
/// lacks what its family requires, else with `MarketNotFound` when `market` is
/// not the market that the intent names, else with `BuildFailed` when the wrap
/// cannot be built.
pub fn build_position_order(config: &Config, principal: &Address, market: &Market, intent: PositionIntent) -> (r:
    Result<OrderPlan, EngineError>)
    ensures
        intent.answered_by(r, *config, *market, *principal),
{
    match intent.validate() {
        Ok(()) => {},
        Err(e) => {
            return Err(e);
        },
    }
    if !market.market_token.same(&intent.market_token) {
        return Err(EngineError::with_text(ErrorKind::MarketNotFound, "the market is not the one the order names"));
    }
    let collateral = resolve(market, intent.is_collateral_long, principal);
    let increase = match intent.family {
        PositionFamily::MarketIncrease => true,
        PositionFamily::LimitIncrease => true,
        _ => false,
    };
    let limit = match intent.family {
        PositionFamily::LimitIncrease => true,
        PositionFamily::LimitDecrease(_) => true,
        _ => false,
    };
    let paid_in: u64 = if increase {
        intent.collateral_amount
    } else {
        0
    };
    let amount: u64 = if increase {
        intent.collateral_amount
    } else {
        match intent.withdrawal_amount {
            Some(w) => w,
            None => 0,
        }
    };
    let wrap = match maybe_wrap(config, principal, &collateral.asset, &collateral.depositor_account, paid_in) {
        Ok(list) => list,
        Err(e) => {
            return Err(e);
        },
    };
    let family = match intent.family {
        PositionFamily::MarketIncrease => OrderFamily::MarketIncrease,
        PositionFamily::MarketDecrease => OrderFamily::MarketDecrease,
        PositionFamily::LimitIncrease => OrderFamily::LimitIncrease,
        PositionFamily::LimitDecrease(p) => OrderFamily::LimitDecrease(p),
    };
    let request = OrderRequest {
        family,
        market_token: intent.market_token,
        is_long: intent.is_long,
        is_collateral_long: intent.is_collateral_long,
        amount,
        size_delta: intent.size_delta,
        trigger_price: if limit {
            intent.trigger_price
        } else {
            None
        },
        min_output_amount: None,
        collateral,
        swap_path: Vec::new(),
    };
    Ok(OrderPlan { request, wrap })
}

/// Builds the plan of a swap: the input asset is the collateral, supplied from
/// the principal's associated account for it, and nothing precedes the order.
pub fn build_swap_order(principal: &Address, intent: SwapIntent) -> (plan: OrderPlan)
    ensures
        intent.plans(plan, *principal),
{
    let collateral = select(principal, &intent.input_asset);
    let request = OrderRequest {
        family: OrderFamily::Swap,
        market_token: intent.market_token,
        is_long: false,
        is_collateral_long: intent.is_output_long,
        amount: intent.input_amount,
        size_delta: 0,
        trigger_price: None,
        min_output_amount: intent.min_output_amount,
        collateral,
        swap_path: intent.path,
    };
    OrderPlan { request, wrap: Vec::new() }
}

/// Builds the plan of any order, by its family.
pub fn build_order(config: &Config, principal: &Address, market: &Market, intent: OrderIntent) -> (r: Result<
    OrderPlan,
    EngineError,
>)
    ensures
        match intent {
            OrderIntent::Position(p) => p.answered_by(r, *config, *market, *principal),
            OrderIntent::Swap(s) => r.is_ok() && s.plans(r.unwrap(), *principal),
        },
{
    match intent {
        OrderIntent::Position(p) => build_position_order(config, principal, market, p),
        OrderIntent::Swap(s) => Ok(build_swap_order(principal, s)),
    }
}

/// Plans a market increase on `market`, wrapping the collateral where it is
/// the native asset, so that wrap and order go out as one transaction.
pub fn create_order(
    config: &Config,
    principal: &Address,
    market: &Market,
    is_collateral_token_long: bool,
    initial_collateral_amount: u64,
    is_long: bool,
    size_delta_usd: u128,
) -> (r: Result<OrderPlan, EngineError>)
    ensures
        PositionIntent::market_increase(
            market.market_token,
            is_long,
            is_collateral_token_long,
            initial_collateral_amount,
            size_delta_usd,
        ).answered_by(r, *config, *market, *principal),
{
    let intent = PositionIntent {
        family: PositionFamily::MarketIncrease,
        market_token: market.market_token,
        is_long,
        is_collateral_long: is_collateral_token_long,
        collateral_amount: initial_collateral_amount,
        size_delta: size_delta_usd,
        trigger_price: None,
        withdrawal_amount: None,
    };
    build_position_order(config, principal, market, intent)
}

/// Plans a limit increase on `market`, wrapping the collateral where it is the native asset.
pub fn create_limit_order(
    config: &Config,
    principal: &Address,
    market: &Market,
    is_collateral_token_long: bool,
    initial_collateral_amount: u64,
    is_long: bool,
    size_delta_usd: u128,
    trigger_price: u128,
) -> (r: Result<OrderPlan, EngineError>)
    ensures
        PositionIntent::limit_increase(
            market.market_token,
            is_long,
            is_collateral_token_long,
            initial_collateral_amount,
            size_delta_usd,
            trigger_price,
        ).answered_by(r, *config, *market, *principal),
{
    open_limit_order(
        config,
        principal,
        market,
        is_long,
        is_collateral_token_long,
        initial_collateral_amount,
        size_delta_usd,
        trigger_price,
    )
}

/// Plans the opening of a position at a trigger price: a limit increase.
pub fn open_limit_order(
    config: &Config,
    principal: &Address,
    market: &Market,
    is_long: bool,
    is_collateral_token_long: bool,
    initial_collateral_amount: u64,
    size_delta_usd: u128,
    trigger_price: u128,
) -> (r: Result<OrderPlan, EngineError>)
    ensures
        PositionIntent::limit_increase(
            market.market_token,
            is_long,
            is_collateral_token_long,
            initial_collateral_amount,
            size_delta_usd,
            trigger_price,
        ).answered_by(r, *config, *market, *principal),
{
    let intent = PositionIntent {
        family: PositionFamily::LimitIncrease,
        market_token: market.market_token,
        is_long,
        is_collateral_long: is_collateral_token_long,
        collateral_amount: initial_collateral_amount,
        size_delta: size_delta_usd,
        trigger_price: Some(trigger_price),
        withdrawal_amount: None,
    };
    build_position_order(config, principal, market, intent)
}

/// Plans a limit decrease for the given purpose. Nothing is paid in, so nothing is wrapped.
pub fn send_decrease_order(
    config: &Config,
    principal: &Address,
    market: &Market,
    purpose: Purpose,
    is_long: bool,
    is_collateral_token_long: bool,
    size_delta_usd: u128,
    trigger_price: u128,
    collateral_withdrawal_amount: u64,
) -> (r: Result<OrderPlan, EngineError>)
    ensures
        PositionIntent::limit_decrease(
            purpose,
            market.market_token,
            is_long,
            is_collateral_token_long,
            collateral_withdrawal_amount,
            size_delta_usd,
            trigger_price,
        ).answered_by(r, *config, *market, *principal),
        r.is_ok() == (size_delta_usd > 0),
        r.is_ok() ==> r.unwrap().wrap@.len() == 0,
{
    let intent = PositionIntent {
        family: PositionFamily::LimitDecrease(purpose),
        market_token: market.market_token,
        is_long,
        is_collateral_long: is_collateral_token_long,
        collateral_amount: 0,
        size_delta: size_delta_usd,
        trigger_price: Some(trigger_price),
        withdrawal_amount: Some(collateral_withdrawal_amount),
    };
    let r = build_position_order(config, principal, market, intent);
    proof {
        if r.is_ok() {
            assert(views(r.unwrap().wrap@).len() == 0);
        }
    }
    r
}

/// Plans the closing or shrinking of a position at a trigger price: a limit
/// decrease, placed as a take-profit.
pub fn close_limit_order(
    config: &Config,
    principal: &Address,
    market: &Market,
    is_long: bool,
    is_collateral_token_long: bool,
    size_delta_usd: u128,
    trigger_price: u128,
    collateral_withdrawal_amount: u64,
) -> (r: Result<OrderPlan, EngineError>)
    ensures
        PositionIntent::limit_decrease(
            Purpose::TakeProfit,
            market.market_token,
            is_long,
            is_collateral_token_long,
            collateral_withdrawal_amount,
            size_delta_usd,
            trigger_price,
        ).answered_by(r, *config, *market, *principal),
        r.is_ok() == (size_delta_usd > 0),
        r.is_ok() ==> r.unwrap().wrap@.len() == 0,
{
    send_decrease_order(
        config,
        principal,
        market,
        Purpose::TakeProfit,
        is_long,
        is_collateral_token_long,
        size_delta_usd,
        trigger_price,
        collateral_withdrawal_amount,
    )
}

/// Plans a take-profit: a limit decrease that withdraws nothing and executes
/// once the price has moved favorably past `take_profit_price`.
pub fn take_profit(
    config: &Config,
    principal: &Address,
    market: &Market,
    is_long: bool,
    is_collateral_token_long: bool,
    size_delta_usd: u128,
    take_profit_price: u128,
) -> (r: Result<OrderPlan, EngineError>)
    ensures
        PositionIntent::limit_decrease(
            Purpose::TakeProfit,
            market.market_token,
            is_long,
            is_collateral_token_long,
            0,
            size_delta_usd,
            take_profit_price,
        ).answered_by(r, *config, *market, *principal),
        r.is_ok() == (size_delta_usd > 0),
        r.is_ok() ==> r.unwrap().wrap@.len() == 0,
{
    send_decrease_order(
        config,
        principal,
        market,
        Purpose::TakeProfit,
        is_long,
        is_collateral_token_long,
        size_delta_usd,
        take_profit_price,
        0,
    )
}

/// Plans a stop-loss: a limit decrease that withdraws nothing and executes
/// once the price has moved unfavorably past `stop_loss_price`.
pub fn stop_loss(
    config: &Config,
    principal: &Address,
    market: &Market,
    is_long: bool,
    is_collateral_token_long: bool,
    size_delta_usd: u128,
    stop_loss_price: u128,
) -> (r: Result<OrderPlan, EngineError>)
    ensures
        PositionIntent::limit_decrease(
            Purpose::StopLoss,
            market.market_token,
            is_long,
            is_collateral_token_long,
            0,
            size_delta_usd,
            stop_loss_price,
        ).answered_by(r, *config, *market, *principal),
        r.is_ok() == (size_delta_usd > 0),
        r.is_ok() ==> r.unwrap().wrap@.len() == 0,
{
    send_decrease_order(
        config,
        principal,
        market,
        Purpose::StopLoss,
        is_long,
        is_collateral_token_long,
        size_delta_usd,
        stop_loss_price,
        0,
    )
}

} // verus!
