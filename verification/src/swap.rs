//! Swaps of one asset for another, at the prevailing rate or with a floor on the output.

use crate::address::Address;
use crate::order::{build_swap_order, OrderFamily, OrderPlan, SwapIntent};
use vstd::prelude::*;

verus! {

/// Whether `plan` swaps `swap_in_amount` of `swap_in_token` through `swap_path`
/// and the market of `market_token`: the input asset is the collateral, drawn
/// from the principal's associated account, and nothing precedes the order.
pub open spec fn is_swap_plan(
    plan: OrderPlan,
    principal: Address,
    market_token: Address,
    is_output_token_long: bool,
    min_output_amount: Option<u64>,
    swap_in_token: Address,
    swap_in_amount: u64,
    swap_path: Seq<Address>,
) -> bool {
    &&& plan.request.family == OrderFamily::Swap
    &&& plan.request.market_token == market_token
    &&& !plan.request.is_long
    &&& plan.request.is_collateral_long == is_output_token_long
    &&& plan.request.amount == swap_in_amount
    &&& plan.request.size_delta == 0
    &&& plan.request.trigger_price is None
    &&& plan.request.min_output_amount == min_output_amount
    &&& plan.request.collateral.selects(principal, swap_in_token)
    &&& plan.request.swap_path@ == swap_path
    &&& plan.wrap@.len() == 0
}

/// Plans a swap at the prevailing rate.
pub fn market_swap(
    principal: &Address,
    market_token: &Address,
    is_output_token_long: bool,
    swap_in_token: &Address,
    swap_in_amount: u64,
    swap_path: Vec<Address>,
) -> (plan: OrderPlan)
    ensures
        is_swap_plan(
            plan,
            *principal,
            *market_token,
            is_output_token_long,
            None,
            *swap_in_token,
            swap_in_amount,
            swap_path@,
        ),
{
    build_swap_order(
        principal,
        SwapIntent {
            market_token: *market_token,
            is_output_long: is_output_token_long,
            input_asset: *swap_in_token,
            input_amount: swap_in_amount,
            min_output_amount: None,
            path: swap_path,
        },
    )
}

/// Plans a swap that executes only once at least `min_output_amount` comes out.
pub fn limit_swap(
    principal: &Address,
    market_token: &Address,
    is_output_token_long: bool,
    min_output_amount: u64,
    swap_in_token: &Address,
    swap_in_amount: u64,
    swap_path: Vec<Address>,
) -> (plan: OrderPlan)
    ensures
        is_swap_plan(
            plan,
            *principal,
            *market_token,
            is_output_token_long,
            Some(min_output_amount),
            *swap_in_token,
            swap_in_amount,
            swap_path@,
        ),
{
    build_swap_order(
        principal,
        SwapIntent {
            market_token: *market_token,
            is_output_long: is_output_token_long,
            input_asset: *swap_in_token,
            input_amount: swap_in_amount,
            min_output_amount: Some(min_output_amount),
            path: swap_path,
        },
    )
}

} // verus!
