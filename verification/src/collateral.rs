//! Which asset backs an order, and which of the depositor's accounts supplies it.

use crate::address::Address;
use crate::instruction::{associated_account, derive_associated_account};
use vstd::prelude::*;

verus! {

/// A tradeable instrument: its share token and its two underlying assets.
#[derive(Clone, Debug, PartialEq, Eq)]
pub struct Market {
    pub name: String,
    pub market_token: Address,
    pub long_token: Address,
    pub short_token: Address,
}

impl Market {
    /// A market is well formed when its two underlying assets differ.
    pub open spec fn wf(&self) -> bool {
        self.long_token@ != self.short_token@
    }

    /// The market with the given parts, or `None` where the two assets coincide.
    pub fn new(name: String, market_token: Address, long_token: Address, short_token: Address) -> (r:
        Option<Market>)
        ensures
            r.is_some() == (long_token@ != short_token@),
            r.is_some() ==> {
                let m = r.unwrap();
                &&& m.wf()
                &&& m.name@ == name@
                &&& m.market_token == market_token
                &&& m.long_token == long_token
                &&& m.short_token == short_token
            },
    {
        if long_token.same(&short_token) {
            None
        } else {
            Some(Market { name, market_token, long_token, short_token })
        }
    }

    /// The underlying asset on the given side.
    pub open spec fn token(&self, long: bool) -> Address {
        if long {
            self.long_token
        } else {
            self.short_token
        }
    }
}

/// The asset that backs an order and the depositor's account for it.
#[derive(Clone, Copy, Debug, PartialEq, Eq)]
pub struct CollateralSelection {
    pub asset: Address,
    pub depositor_account: Address,
}

impl CollateralSelection {
    /// Whether this is the selection for `asset` held by `principal`.
    pub open spec fn selects(&self, principal: Address, asset: Address) -> bool {
        &&& self.asset == asset
        &&& self.depositor_account@ == associated_account(principal@, asset@)
    }
}

/// The selection for an asset named outright: the asset itself, with the
/// principal's associated account for it.
pub fn select(principal: &Address, asset: &Address) -> (s: CollateralSelection)
    ensures
        s.selects(*principal, *asset),
{
    CollateralSelection { asset: *asset, depositor_account: derive_associated_account(principal, asset) }
}

/// The collateral of an order on `market`: the long asset when
/// `is_collateral_long`, else the short one, with the principal's associated
/// account for that asset.
pub fn resolve(market: &Market, is_collateral_long: bool, principal: &Address) -> (s:
    CollateralSelection)
    ensures
        s.asset == (if is_collateral_long {
            market.long_token
        } else {
            market.short_token
        }),
        s.depositor_account@ == associated_account(principal@, s.asset@),
        s.selects(*principal, market.token(is_collateral_long)),
{
    if is_collateral_long {
        select(principal, &market.long_token)
    } else {
        select(principal, &market.short_token)
    }
}

/// Resolving is a function of its inputs: two selections for the same market,
/// side and principal are the same selection.
pub proof fn lemma_resolve_deterministic(
    market: Market,
    is_collateral_long: bool,
    principal: Address,
    first: CollateralSelection,
    second: CollateralSelection,
)
    requires
        first.selects(principal, market.token(is_collateral_long)),
        second.selects(principal, market.token(is_collateral_long)),
    ensures
        first == second,
{
    assert(first.depositor_account.bytes =~= second.depositor_account.bytes);
}

} // verus!
