//! Wrapping of the native asset: the two instructions that make native value
//! spendable as a token, to be sent together with the order that spends it.

use crate::address::{token_program_bytes, Address, Config};
use crate::error::{EngineError, ErrorKind};
use crate::instruction::{
    is_synchronize, is_transfer, program_error_text, system_transfer, token_synchronize, views,
    Instruction, InstructionView,
};
use vstd::prelude::*;

verus! {

/// Whether paying `amount` of `asset` calls for a wrap: only the native asset
/// is wrapped, and only when something is paid in.
pub open spec fn wrap_needed(config: Config, asset: Address, amount: u64) -> bool {
    amount > 0 && asset@ == config.native_asset@
}

/// Whether `list` is the wrap of `amount` into `account`: the transfer from the
/// principal first, the synchronization directly after it, and nothing else.
pub open spec fn is_wrap(
    list: Seq<InstructionView>,
    config: Config,
    principal: Address,
    account: Address,
    amount: u64,
) -> bool {
    &&& list.len() == 2
    &&& is_transfer(list[0], principal, account, amount)
    &&& is_synchronize(list[1], config.token_program, account)
}

/// Whether `list` is what accompanies a payment of `amount` of `asset` from
/// `account`: the wrap where one is needed, nothing otherwise.
pub open spec fn wrap_matches(
    list: Seq<InstructionView>,
    config: Config,
    principal: Address,
    asset: Address,
    account: Address,
    amount: u64,
) -> bool {
    if wrap_needed(config, asset, amount) {
        is_wrap(list, config, principal, account, amount)
    } else {
        list.len() == 0
    }
}

/// Whether the wrap for such a payment can be built: it cannot where one is
/// needed and the configured token program is not the token program.
pub open spec fn wrap_possible(config: Config, asset: Address, amount: u64) -> bool {
    wrap_needed(config, asset, amount) ==> config.token_program@ == token_program_bytes()
}

/// The instructions that must precede an order paying `amount` of `asset` out
/// of `depositor_account`.
///
/// For any asset but the native one, and for an amount of zero, the list is
/// empty. For a positive amount of the native asset it holds exactly the
/// transfer of `amount` from `principal` into `depositor_account`, then the
/// synchronization of that account. Fails with `BuildFailed` exactly when a
/// wrap is needed and the configured token program refuses to synchronize.
pub fn maybe_wrap(
    config: &Config,
    principal: &Address,
    asset: &Address,
    depositor_account: &Address,
    amount: u64,
) -> (r: Result<Vec<Instruction>, EngineError>)
    ensures
        r.is_ok() == wrap_possible(*config, *asset, amount),
        r.is_ok() ==> wrap_matches(
            views(r.unwrap()@),
            *config,
            *principal,
            *asset,
            *depositor_account,
            amount,
        ),
        r.is_err() ==> r.unwrap_err().kind == ErrorKind::BuildFailed,
{
    let mut list: Vec<Instruction> = Vec::new();
    if amount == 0 || !asset.same(&config.native_asset) {
        assert(views(list@).len() == 0);
        return Ok(list);
    }
    let synchronize = match token_synchronize(&config.token_program, depositor_account) {
        Ok(ix) => ix,
        Err(cause) => {
            return Err(EngineError::new(ErrorKind::BuildFailed, program_error_text(&cause)));
        },
    };
    list.push(system_transfer(principal, depositor_account, amount));
    list.push(synchronize);
    assert(views(list@).len() == 2);
    Ok(list)
}

} // verus!
