//! Orders that act on an open position at the prevailing price, and how a
//! position's side is read from its record.

use crate::address::{Address, Config};
use crate::collateral::Market;
use crate::error::EngineError;
use crate::instruction::views;
use crate::market::{eq_ignore_ascii_case, same_ignoring_case};
use crate::order::{build_position_order, OrderPlan, PositionFamily, PositionIntent};
use vstd::prelude::*;
use vstd::string::StringSliceAdditionalSpecFns;
use vstd::utf8::encode_utf8;

verus! {

/// The direction of a position or an order.
#[derive(Clone, Copy, Debug, PartialEq, Eq, Structural)]
pub enum Side {
    Long,
    Short,
}

impl Side {
    /// The side that the flag names.
    pub fn from_is_long(is_long: bool) -> (s: Side)
        ensures
            s == (if is_long {
                Side::Long
            } else {
                Side::Short
            }),
    {
        if is_long {
            Side::Long
        } else {
            Side::Short
        }
    }

    /// The side that a word names: long for the word "long" in any mix of
    /// upper and lower case, short for every other word.
    pub fn parse(word: &str) -> (s: Side)
        ensures
            s == (if same_ignoring_case(encode_utf8(word@), encode_utf8("long"@)) {
                Side::Long
            } else {
                Side::Short
            }),
    {
        if eq_ignore_ascii_case(word.as_bytes(), "long".as_bytes()) {
            Side::Long
        } else {
            Side::Short
        }
    }

    /// Whether this is the long side.
    pub fn is_long(&self) -> (b: bool)
        ensures
            b == (*self == Side::Long),
    {
        match self {
            Side::Long => true,
            Side::Short => false,
        }
    }

    /// The side that a position's record names by its kind: one for long,
    /// two for short, nothing for any other value.
    pub fn from_kind(kind: u8) -> (s: Option<Side>)
        ensures
            s == (if kind == 1 {
                Some(Side::Long)
            } else if kind == 2 {
                Some(Side::Short)
            } else {
                None
            }),
    {
        if kind == 1 {
            Some(Side::Long)
        } else if kind == 2 {
            Some(Side::Short)
        } else {
            None
        }
    }
}

/// The word that a listing shows for a position's kind.
pub fn side_label(kind: u8) -> (label: &'static str)
    ensures
        label@ == (if kind == 1 {
            "LONG"@
        } else if kind == 2 {
            "SHORT"@
        } else {
            "UNKNOWN"@
        }),
{
    match Side::from_kind(kind) {
        Some(Side::Long) => "LONG",
        Some(Side::Short) => "SHORT",
        None => "UNKNOWN",
    }
}

/// Plans a market decrease: closes or shrinks a position at the prevailing
/// price. A size of the largest value closes it fully. Nothing is wrapped.
pub fn close_position(
    config: &Config,
    principal: &Address,
    market: &Market,
    is_long: bool,
    is_collateral_token_long: bool,
    size_delta_usd: u128,
    collateral_withdrawal_amount: u64,
) -> (r: Result<OrderPlan, EngineError>)
    ensures
        PositionIntent::market_decrease(
            market.market_token,
            is_long,
            is_collateral_token_long,
            collateral_withdrawal_amount,
            size_delta_usd,
        ).answered_by(r, *config, *market, *principal),
        r.is_ok(),
        r.unwrap().wrap@.len() == 0,
{
    let intent = PositionIntent {
        family: PositionFamily::MarketDecrease,
        market_token: market.market_token,
        is_long,
        is_collateral_long: is_collateral_token_long,
        collateral_amount: 0,
        size_delta: size_delta_usd,
        trigger_price: None,
        withdrawal_amount: Some(collateral_withdrawal_amount),
    };
    let r = build_position_order(config, principal, market, intent);
    proof {
        assert(views(r.unwrap().wrap@).len() == 0);
    }
    r
}

/// Plans a deposit of collateral: a market increase of size zero.
pub fn deposit_collateral(
    config: &Config,
    principal: &Address,
    market: &Market,
    is_long: bool,
    is_collateral_token_long: bool,
    collateral_amount: u64,
) -> (r: Result<OrderPlan, EngineError>)
    ensures
        PositionIntent::market_increase(
            market.market_token,
            is_long,
            is_collateral_token_long,
            collateral_amount,
            0,
        ).answered_by(r, *config, *market, *principal),
{
    let intent = PositionIntent {
        family: PositionFamily::MarketIncrease,
        market_token: market.market_token,
        is_long,
        is_collateral_long: is_collateral_token_long,
        collateral_amount,
        size_delta: 0,
        trigger_price: None,
        withdrawal_amount: None,
    };
    build_position_order(config, principal, market, intent)
}

/// Plans a withdrawal of collateral: a market decrease of size zero.
pub fn withdraw_collateral(
    config: &Config,
    principal: &Address,
    market: &Market,
    is_long: bool,
    is_collateral_token_long: bool,
    collateral_withdrawal_amount: u64,
) -> (r: Result<OrderPlan, EngineError>)
    ensures
        PositionIntent::market_decrease(
            market.market_token,
            is_long,
            is_collateral_token_long,
            collateral_withdrawal_amount,
            0,
        ).answered_by(r, *config, *market, *principal),
        r.is_ok(),
        r.unwrap().wrap@.len() == 0,
{
    close_position(
        config,
        principal,
        market,
        is_long,
        is_collateral_token_long,
        0,
        collateral_withdrawal_amount,
    )
}

} // verus!
