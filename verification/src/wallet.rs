//! Preparation of a wallet for a market: the token accounts that must exist
//! before the wallet can trade on it.

use crate::address::{Address, Config};
use crate::collateral::{select, Market};
use crate::instruction::associated_account;
use vstd::prelude::*;

verus! {

/// One token account to create, unless it already exists.
#[derive(Clone, Copy, Debug, PartialEq, Eq)]
pub struct AccountSetup {
    pub asset: Address,
    pub token_program: Address,
    pub account: Address,
}

impl AccountSetup {
    /// Whether this prepares `principal`'s associated account for `asset` under the configured token program.
    pub open spec fn prepares(&self, config: Config, principal: Address, asset: Address) -> bool {
        &&& self.asset == asset
        &&& self.token_program == config.token_program
        &&& self.account@ == associated_account(principal@, asset@)
    }
}

/// The accounts to prepare for trading on `market`: the principal's
/// associated accounts for the long asset and for the short asset, in that
/// order, to be created in one transaction.
pub fn setup_wallet(config: &Config, principal: &Address, market: &Market) -> (setups: [AccountSetup; 2])
    ensures
        setups@[0].prepares(*config, *principal, market.long_token),
        setups@[1].prepares(*config, *principal, market.short_token),
{
    let long = select(principal, &market.long_token);
    let short = select(principal, &market.short_token);
    [
        AccountSetup { asset: long.asset, token_program: config.token_program, account: long.depositor_account },
        AccountSetup { asset: short.asset, token_program: config.token_program, account: short.depositor_account },
    ]
}

/// The accounts to prepare for trading on `market`; see [`setup_wallet`].
pub fn setup_associated_token_accounts(config: &Config, principal: &Address, market: &Market) -> (setups: [AccountSetup; 2])
    ensures
        setups@[0].prepares(*config, *principal, market.long_token),
        setups@[1].prepares(*config, *principal, market.short_token),
{
    setup_wallet(config, principal, market)
}

} // verus!
