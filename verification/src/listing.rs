//! The names of the markets, in the order in which a listing shows them.

use crate::collateral::Market;
use vstd::prelude::*;
use vstd::seq_lib::{to_multiset_build, to_multiset_remove};
use vstd::utf8::encode_utf8;

verus! {

/// Whether `a` comes no later than `b` when byte strings are ordered like
/// words in a dictionary: by the first byte that differs, a prefix first.
pub open spec fn lex_le(a: Seq<u8>, b: Seq<u8>) -> bool
    decreases a.len(),
{
    if a.len() == 0 {
        true
    } else if b.len() == 0 {
        false
    } else if a[0] != b[0] {
        a[0] < b[0]
    } else {
        lex_le(a.drop_first(), b.drop_first())
    }
}

/// Whether the name `a` comes no later than the name `b`.
pub open spec fn name_le(a: String, b: String) -> bool {
    lex_le(encode_utf8(a@), encode_utf8(b@))
}

/// Whether each name comes no later than every name after it.
pub open spec fn sorted(names: Seq<String>) -> bool {
    forall|i: int, j: int| 0 <= i < j < names.len() ==> name_le(names[i], names[j])
}

/// The names of the markets, in the order of the markets.
pub open spec fn names_of(markets: Seq<Market>) -> Seq<String> {
    markets.map_values(|m: Market| m.name)
}

/// Of two byte strings one comes no later than the other.
pub proof fn lemma_lex_total(a: Seq<u8>, b: Seq<u8>)
    ensures
        lex_le(a, b) || lex_le(b, a),
    decreases a.len(),
{
    if a.len() > 0 && b.len() > 0 && a[0] == b[0] {
        lemma_lex_total(a.drop_first(), b.drop_first());
    }
}

/// The order of byte strings is transitive.
pub proof fn lemma_lex_transitive(a: Seq<u8>, b: Seq<u8>, c: Seq<u8>)
    requires
        lex_le(a, b),
        lex_le(b, c),
    ensures
        lex_le(a, c),
    decreases a.len(),
{
    if a.len() > 0 && b.len() > 0 && c.len() > 0 && a[0] == b[0] && b[0] == c[0] {
        lemma_lex_transitive(a.drop_first(), b.drop_first(), c.drop_first());
    }
}

/// Whether `a` comes no later than `b` in dictionary order.
pub fn bytes_le(a: &[u8], b: &[u8]) -> (r: bool)
    ensures
        r == lex_le(a@, b@),
{
    let mut i: usize = 0;
    assert(a@.skip(0) =~= a@ && b@.skip(0) =~= b@);
    while i < a.len() && i < b.len()
        invariant
            i <= a.len(),
            i <= b.len(),
            lex_le(a@, b@) == lex_le(a@.skip(i as int), b@.skip(i as int)),
        decreases a.len() - i,
    {
        proof {
            assert(a@.skip(i as int)[0] == a@[i as int]);
            assert(b@.skip(i as int)[0] == b@[i as int]);
            assert(a@.skip(i as int).drop_first() =~= a@.skip(i + 1));
            assert(b@.skip(i as int).drop_first() =~= b@.skip(i + 1));
        }
        if a[i] != b[i] {
            return a[i] < b[i];
        }
        i = i + 1;
    }
    i == a.len()
}

/// The names of all markets, sorted: each name once for each market that
/// bears it, and each no later than every name after it.
pub fn get_all_market_names(markets: &Vec<Market>) -> (names: Vec<String>)
    ensures
        sorted(names@),
        names@.to_multiset() == names_of(markets@).to_multiset(),
        names@.len() == markets@.len(),
{
    let mut names: Vec<String> = Vec::new();
    let mut k: usize = 0;
    assert(names_of(markets@).take(0) =~= names@);
    while k < markets.len()
        invariant
            k <= markets.len(),
            names@.len() == k,
            sorted(names@),
            names@.to_multiset() == names_of(markets@).take(k as int).to_multiset(),
        decreases markets.len() - k,
    {
        let name = markets[k].name.clone();
        let mut p: usize = 0;
        let mut placed = false;
        while p < names.len() && !placed
            invariant
                p <= names.len(),
                forall|i: int| 0 <= i < p ==> name_le(#[trigger] names@[i], name),
                placed ==> p < names.len() && !name_le(names@[p as int], name),
            decreases names.len() - p + (if placed { 0int } else { 1int }),
        {
            if bytes_le(names[p].as_str().as_bytes(), name.as_str().as_bytes()) {
                p = p + 1;
            } else {
                placed = true;
            }
        }
        proof {
            let before = names@;
            let after = before.insert(p as int, name);
            assert forall|i: int, j: int| 0 <= i < j < after.len() implies name_le(after[i], after[j]) by {
                if j < p {
                } else if j == p {
                } else if i == p {
                    // `name` comes before what stood at `p`, and that before all that follows.
                    lemma_lex_total(encode_utf8(before[p as int]@), encode_utf8(name@));
                    assert(after[j] == before[j - 1]);
                    if j - 1 > p {
                        assert(name_le(before[p as int], before[j - 1]));
                        lemma_lex_transitive(
                            encode_utf8(name@),
                            encode_utf8(before[p as int]@),
                            encode_utf8(before[j - 1]@),
                        );
                    }
                } else if i < p {
                    assert(after[j] == before[j - 1]);
                } else {
                    assert(after[i] == before[i - 1]);
                    assert(after[j] == before[j - 1]);
                }
            }
            assert(after.remove(p as int) =~= before);
            to_multiset_remove(after, p as int);
            after.to_multiset_ensures();
            assert(after.contains(name)) by {
                assert(after[p as int] == name);
            }
            assert(after.to_multiset() =~= before.to_multiset().insert(name));
            let upto = names_of(markets@).take(k as int);
            assert(names_of(markets@).take(k + 1) =~= upto.push(name));
            to_multiset_build(upto, name);
        }
        names.insert(p, name);
        k = k + 1;
    }
    assert(names_of(markets@).take(k as int) =~= names_of(markets@));
    names
}

} // verus!
