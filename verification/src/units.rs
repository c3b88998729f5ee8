//! Conversion of whole-unit human amounts into the protocol's fixed-point scale.
//!
//! A scaled amount is `whole * 10^exponent`. USD sizes use one global exponent;
//! prices use `30 - decimals` of the priced asset.

use crate::error::{EngineError, EngineErrorView, ErrorKind};
use vstd::prelude::*;

verus! {

/// Exponent of the USD-size domain: a size of one dollar is `10^20`.
pub const USD_SIZE_EXPONENT: u8 = 20;

/// Exponent of a price for an asset without decimals; each decimal of the asset lowers it by one.
pub const PRICE_EXPONENT_BASE: u8 = 30;

/// The size that means "close the entire position".
pub const CLOSE_ALL: u128 = 0xffff_ffff_ffff_ffff_ffff_ffff_ffff_ffff;

/// `10^e`.
pub open spec fn pow10(e: nat) -> nat
    decreases e,
{
    if e == 0 {
        1
    } else {
        10 * pow10((e - 1) as nat)
    }
}

/// The scaled form of `whole` at `exponent`, as an unbounded integer.
pub open spec fn scaled(whole: nat, exponent: nat) -> nat {
    whole * pow10(exponent)
}

/// The scaled USD size of `whole` dollars.
pub open spec fn scaled_usd_size(whole: nat) -> nat {
    scaled(whole, USD_SIZE_EXPONENT as nat)
}

/// The scaled price of `whole` dollars per unit of an asset with `decimals` decimals.
pub open spec fn scaled_price(whole: nat, decimals: nat) -> nat
    recommends
        decimals <= PRICE_EXPONENT_BASE,
{
    scaled(whole, (PRICE_EXPONENT_BASE - decimals) as nat)
}

/// The size handed to a market decrease for `whole` dollars: zero asks for a full close.
pub open spec fn decrease_size(whole: nat) -> nat {
    if whole == 0 {
        CLOSE_ALL as nat
    } else {
        scaled_usd_size(whole)
    }
}

/// Powers of ten are positive and grow with the exponent.
pub proof fn lemma_pow10_monotonic(a: nat, b: nat)
    requires
        a <= b,
    ensures
        1 <= pow10(a) <= pow10(b),
    decreases b,
{
    if b == 0 {
    } else if a == b {
        lemma_pow10_monotonic((a - 1) as nat, (b - 1) as nat);
    } else {
        lemma_pow10_monotonic(a, (b - 1) as nat);
    }
}

/// Scaling grows with the exponent.
pub proof fn lemma_scaled_monotonic(whole: nat, a: nat, b: nat)
    requires
        a <= b,
    ensures
        scaled(whole, a) <= scaled(whole, b),
{
    lemma_pow10_monotonic(a, b);
    assert(whole * pow10(a) <= whole * pow10(b)) by (nonlinear_arith)
        requires
            pow10(a) <= pow10(b),
    ;
}

/// Scaling is one-to-one in the whole amount: distinct inputs never share a scaled value.
pub proof fn lemma_scaled_injective(v: nat, w: nat, exponent: nat)
    requires
        scaled(v, exponent) == scaled(w, exponent),
    ensures
        v == w,
{
    lemma_pow10_monotonic(0, exponent);
    assert(v == w) by (nonlinear_arith)
        requires
            v * pow10(exponent) == w * pow10(exponent),
            pow10(exponent) >= 1,
    ;
}

/// `whole * 10^exponent`, or `None` where that does not fit in 128 bits.
pub fn scale(whole: u128, exponent: u8) -> (r: Option<u128>)
    ensures
        r == (if scaled(whole as nat, exponent as nat) <= u128::MAX {
            Some(scaled(whole as nat, exponent as nat) as u128)
        } else {
            None
        }),
{
    let mut acc: u128 = whole;
    let mut i: u8 = 0;
    assert(scaled(whole as nat, 0) == whole) by {
        assert(pow10(0) == 1);
    }
    while i < exponent
        invariant
            i <= exponent,
            acc == scaled(whole as nat, i as nat),
        decreases exponent - i,
    {
        match acc.checked_mul(10) {
            Some(next) => {
                assert(scaled(whole as nat, (i + 1) as nat) == 10 * scaled(whole as nat, i as nat))
                    by (nonlinear_arith)
                    requires
                        pow10((i + 1) as nat) == 10 * pow10(i as nat),
                ;
                acc = next;
            },
            None => {
                proof {
                    assert(scaled(whole as nat, (i + 1) as nat) == 10 * scaled(whole as nat, i as nat))
                        by (nonlinear_arith)
                        requires
                            pow10((i + 1) as nat) == 10 * pow10(i as nat),
                    ;
                    lemma_scaled_monotonic(whole as nat, (i + 1) as nat, exponent as nat);
                }
                return None;
            },
        }
        i = i + 1;
    }
    Some(acc)
}

/// Converts a whole-dollar size into the USD-size domain.
///
/// Fails with `InvalidInput` exactly when the scaled size does not fit in 128 bits.
pub fn to_scaled_usd_size(whole: u128) -> (r: Result<u128, EngineError>)
    ensures
        scaled_usd_size(whole as nat) <= u128::MAX ==> r == Ok::<u128, EngineError>(
            scaled_usd_size(whole as nat) as u128,
        ),
        scaled_usd_size(whole as nat) > u128::MAX ==> r.is_err() && r.unwrap_err()@ == (
        EngineErrorView {
            kind: ErrorKind::InvalidInput,
            detail: "size does not fit the scaled range"@,
        }),
{
    match scale(whole, USD_SIZE_EXPONENT) {
        Some(v) => Ok(v),
        None => Err(EngineError::with_text(ErrorKind::InvalidInput, "size does not fit the scaled range")),
    }
}

/// Converts a whole-dollar price into the price domain of an asset with `asset_decimals` decimals.
///
/// Fails with `InvalidInput` exactly when `asset_decimals` exceeds 30 or the scaled
/// price does not fit in 128 bits.
pub fn to_scaled_price(whole: u128, asset_decimals: u8) -> (r: Result<u128, EngineError>)
    ensures
        asset_decimals <= PRICE_EXPONENT_BASE && scaled_price(whole as nat, asset_decimals as nat)
            <= u128::MAX ==> r == Ok::<u128, EngineError>(
            scaled_price(whole as nat, asset_decimals as nat) as u128,
        ),
        asset_decimals > PRICE_EXPONENT_BASE ==> r.is_err() && r.unwrap_err()@ == (EngineErrorView {
            kind: ErrorKind::InvalidInput,
            detail: "asset decimals exceed 30"@,
        }),
        asset_decimals <= PRICE_EXPONENT_BASE && scaled_price(whole as nat, asset_decimals as nat)
            > u128::MAX ==> r.is_err() && r.unwrap_err()@ == (EngineErrorView {
            kind: ErrorKind::InvalidInput,
            detail: "price does not fit the scaled range"@,
        }),
{
    if asset_decimals > PRICE_EXPONENT_BASE {
        return Err(EngineError::with_text(ErrorKind::InvalidInput, "asset decimals exceed 30"));
    }
    match scale(whole, PRICE_EXPONENT_BASE - asset_decimals) {
        Some(v) => Ok(v),
        None => Err(EngineError::with_text(ErrorKind::InvalidInput, "price does not fit the scaled range")),
    }
}

/// Converts the whole-dollar size of a market decrease. A size of zero asks for a
/// full close and yields [`CLOSE_ALL`] unscaled; any other size is scaled as a USD size.
pub fn to_decrease_size(whole: u128) -> (r: Result<u128, EngineError>)
    ensures
        decrease_size(whole as nat) <= u128::MAX ==> r == Ok::<u128, EngineError>(
            decrease_size(whole as nat) as u128,
        ),
        decrease_size(whole as nat) > u128::MAX ==> r.is_err() && r.unwrap_err()@ == (
        EngineErrorView {
            kind: ErrorKind::InvalidInput,
            detail: "size does not fit the scaled range"@,
        }),
{
    if whole == 0 {
        Ok(CLOSE_ALL)
    } else {
        to_scaled_usd_size(whole)
    }
}

} // verus!
