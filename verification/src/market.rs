//! Lookup of a market among those that can be resolved, by the identity of
//! its share token or by its name.

use crate::address::Address;
use crate::collateral::Market;
use crate::error::{EngineError, EngineErrorView, ErrorKind};
use vstd::prelude::*;
use vstd::string::StringSliceAdditionalSpecFns;
use vstd::utf8::encode_utf8;

verus! {

/// The byte with an upper-case ASCII letter turned into its lower-case form.
pub open spec fn folded(b: u8) -> u8 {
    if 65 <= b <= 90 {
        (b + 32) as u8
    } else {
        b
    }
}

/// Whether two byte strings are equal up to the case of their ASCII letters.
pub open spec fn same_ignoring_case(a: Seq<u8>, b: Seq<u8>) -> bool {
    &&& a.len() == b.len()
    &&& forall|i: int| 0 <= i < a.len() ==> folded(#[trigger] a[i]) == folded(b[i])
}

/// Whether the market's name is `name`, up to the case of ASCII letters.
pub open spec fn is_named(market: Market, name: Seq<char>) -> bool {
    same_ignoring_case(encode_utf8(market.name@), encode_utf8(name))
}

/// Whether `found` is the place of the first market with the given share
/// token, or no place at all where there is no such market.
pub open spec fn locates_token(markets: Seq<Market>, market_token: Address, found: Option<usize>) -> bool {
    match found {
        Some(i) => {
            &&& i < markets.len()
            &&& markets[i as int].market_token@ == market_token@
            &&& forall|j: int| 0 <= j < i ==> (#[trigger] markets[j]).market_token@ != market_token@
        },
        None => forall|j: int| 0 <= j < markets.len() ==> (#[trigger] markets[j]).market_token@ != market_token@,
    }
}

/// Whether `found` is the place of the first market with the given name, or
/// no place at all where there is no such market.
pub open spec fn locates_name(markets: Seq<Market>, name: Seq<char>, found: Option<usize>) -> bool {
    match found {
        Some(i) => {
            &&& i < markets.len()
            &&& is_named(markets[i as int], name)
            &&& forall|j: int| 0 <= j < i ==> !is_named(#[trigger] markets[j], name)
        },
        None => forall|j: int| 0 <= j < markets.len() ==> !is_named(#[trigger] markets[j], name),
    }
}

/// A lookup by share token has one answer: two places that both answer it
/// are the same place. Resolving a market twice among the same markets
/// therefore yields the same market.
pub proof fn lemma_token_lookup_unique(
    markets: Seq<Market>,
    market_token: Address,
    first: Option<usize>,
    second: Option<usize>,
)
    requires
        locates_token(markets, market_token, first),
        locates_token(markets, market_token, second),
    ensures
        first == second,
{
    if first is Some && second is Some {
        let i = first->0;
        let j = second->0;
        if i < j {
            assert(markets[i as int].market_token@ != market_token@);
        } else if j < i {
            assert(markets[j as int].market_token@ != market_token@);
        }
    } else if first is Some {
        assert(markets[first->0 as int].market_token@ != market_token@);
    } else if second is Some {
        assert(markets[second->0 as int].market_token@ != market_token@);
    }
}

/// A lookup by name has one answer.
pub proof fn lemma_name_lookup_unique(
    markets: Seq<Market>,
    name: Seq<char>,
    first: Option<usize>,
    second: Option<usize>,
)
    requires
        locates_name(markets, name, first),
        locates_name(markets, name, second),
    ensures
        first == second,
{
    if first is Some && second is Some {
        let i = first->0;
        let j = second->0;
        if i < j {
            assert(!is_named(markets[i as int], name));
        } else if j < i {
            assert(!is_named(markets[j as int], name));
        }
    } else if first is Some {
        assert(!is_named(markets[first->0 as int], name));
    } else if second is Some {
        assert(!is_named(markets[second->0 as int], name));
    }
}

/// Lower-case form of an upper-case ASCII letter; any other byte unchanged.
fn fold(b: u8) -> (r: u8)
    ensures
        r == folded(b),
{
    if 65 <= b && b <= 90 {
        b + 32
    } else {
        b
    }
}

/// Whether two byte strings are equal up to the case of their ASCII letters.
pub fn eq_ignore_ascii_case(a: &[u8], b: &[u8]) -> (r: bool)
    ensures
        r == same_ignoring_case(a@, b@),
{
    if a.len() != b.len() {
        return false;
    }
    let mut i: usize = 0;
    while i < a.len()
        invariant
            i <= a.len(),
            a.len() == b.len(),
            forall|j: int| 0 <= j < i ==> folded(#[trigger] a@[j]) == folded(b@[j]),
        decreases a.len() - i,
    {
        if fold(a[i]) != fold(b[i]) {
            return false;
        }
        i = i + 1;
    }
    true
}

/// The place of the first market whose share token is `market_token`.
pub fn position_by_token(markets: &Vec<Market>, market_token: &Address) -> (found: Option<usize>)
    ensures
        locates_token(markets@, *market_token, found),
{
    let mut i: usize = 0;
    while i < markets.len()
        invariant
            i <= markets.len(),
            forall|j: int| 0 <= j < i ==> (#[trigger] markets@[j]).market_token@ != market_token@,
        decreases markets.len() - i,
    {
        if markets[i].market_token.same(market_token) {
            return Some(i);
        }
        i = i + 1;
    }
    None
}

/// The market whose share token is `market_token`: the first such among
/// `markets`, or `MarketNotFound` where there is none.
pub fn market_by_token<'a>(markets: &'a Vec<Market>, market_token: &Address) -> (r: Result<
    &'a Market,
    EngineError,
>)
    ensures
        match r {
            Ok(market) => exists|i: usize|
                locates_token(markets@, *market_token, Some(i)) && *market == markets@[i as int],
            Err(e) => locates_token(markets@, *market_token, None) && e@ == (EngineErrorView {
                kind: ErrorKind::MarketNotFound,
                detail: "no market has this share token"@,
            }),
        },
{
    match position_by_token(markets, market_token) {
        Some(i) => Ok(&markets[i]),
        None => Err(EngineError::with_text(ErrorKind::MarketNotFound, "no market has this share token")),
    }
}

/// The place of the first market named `name`, up to the case of ASCII letters.
pub fn position_by_name(markets: &Vec<Market>, name: &str) -> (found: Option<usize>)
    ensures
        locates_name(markets@, name@, found),
{
    let wanted = name.as_bytes();
    let mut i: usize = 0;
    while i < markets.len()
        invariant
            i <= markets.len(),
            wanted@ == encode_utf8(name@),
            forall|j: int| 0 <= j < i ==> !is_named(#[trigger] markets@[j], name@),
        decreases markets.len() - i,
    {
        if eq_ignore_ascii_case(markets[i].name.as_str().as_bytes(), wanted) {
            return Some(i);
        }
        i = i + 1;
    }
    None
}

/// The market named `name`, up to the case of ASCII letters: the first such
/// among `markets`, or `MarketNotFound` where there is none.
pub fn find_by_name<'a>(markets: &'a Vec<Market>, name: &str) -> (r: Result<&'a Market, EngineError>)
    ensures
        match r {
            Ok(market) => exists|i: usize|
                locates_name(markets@, name@, Some(i)) && *market == markets@[i as int],
            Err(e) => locates_name(markets@, name@, None) && e@ == (EngineErrorView {
                kind: ErrorKind::MarketNotFound,
                detail: "no market has this name"@,
            }),
        },
{
    match position_by_name(markets, name) {
        Some(i) => Ok(&markets[i]),
        None => Err(EngineError::with_text(ErrorKind::MarketNotFound, "no market has this name")),
    }
}

} // verus!
