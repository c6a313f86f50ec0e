use crate::utils::{clean_utf8_content, cleaned, views};
use fuzzy_matcher::FuzzyMatcher;
use itertools::Itertools;
use vstd::prelude::*;

verus! {

/// The score that skim's fuzzy matcher, in its default configuration, gives
/// `choice` for `pattern`; `None` when the pattern does not match at all.
pub uninterp spec fn skim_score(choice: Seq<char>, pattern: Seq<char>) -> Option<i64>;

/// Relies on fuzzy-matcher's `SkimMatcherV2::fuzzy_match` (default
/// configuration): the score depends on the two strings alone, and an empty
/// pattern scores 0.
#[verifier::external_body]
fn fuzzy_score(choice: &str, pattern: &str) -> (r: Option<i64>)
    ensures
        r == skim_score(choice@, pattern@),
        pattern@.len() == 0 ==> r == Some(0i64),
{
    fuzzy_matcher::skim::SkimMatcherV2::default().fuzzy_match(choice, pattern)
}

/// Lexicographic order on (key, position) pairs.
pub open spec fn pair_le(a: (i128, usize), b: (i128, usize)) -> bool {
    a.0 < b.0 || (a.0 == b.0 && a.1 <= b.1)
}

/// Relies on itertools' `sorted_unstable`: the same items in ascending order,
/// tuples comparing lexicographically.
#[verifier::external_body]
fn sort_pairs(v: Vec<(i128, usize)>) -> (r: Vec<(i128, usize)>)
    ensures
        r@.to_multiset() == v@.to_multiset(),
        forall|i: int, j: int| 0 <= i < j < r@.len() ==> pair_le(r@[i], r@[j]),
{
    v.into_iter().sorted_unstable().collect()
}

/// Entry `i` of `index` comes before entry `j`: a higher score, or an equal
/// score and an earlier position.
pub open spec fn ranks_before(index: Seq<Seq<char>>, query: Seq<char>, i: int, j: int) -> bool {
    let si = skim_score(index[i], query)->0;
    let sj = skim_score(index[j], query)->0;
    si > sj || (si == sj && i < j)
}

/// `order` lists the positions of exactly the entries of `index` that match
/// `query`, best first.
pub open spec fn is_ranking(index: Seq<Seq<char>>, query: Seq<char>, order: Seq<int>) -> bool {
    &&& forall|k: int|
        0 <= k < order.len() ==> 0 <= #[trigger] order[k] < index.len() && skim_score(
            index[order[k]],
            query,
        ) is Some
    &&& forall|i: int|
        0 <= i < index.len() && #[trigger] skim_score(index[i], query) is Some ==> order.contains(i)
    &&& forall|k1: int, k2: int|
        0 <= k1 < k2 < order.len() ==> ranks_before(index, query, #[trigger] order[k1], #[trigger] order[k2])
}

/// The entries of `index` that fuzzy-match `query`, cleaned for display and
/// ranked by descending score; equal scores keep their order in the index.
pub open spec fn is_filtered_view(index: Seq<Seq<char>>, query: Seq<char>, r: Seq<Seq<char>>) -> bool {
    exists|order: Seq<int>|
        #![trigger is_ranking(index, query, order)]
        is_ranking(index, query, order) && r.len() == order.len() && forall|k: int|
            0 <= k < order.len() ==> r[k] == cleaned(index[#[trigger] order[k]])
}

/// A filtered view lists only entries that match, by non-increasing score,
/// and every entry that matches.
pub proof fn lemma_filtered_view_sorted(index: Seq<Seq<char>>, query: Seq<char>, order: Seq<int>)
    requires
        is_ranking(index, query, order),
    ensures
        forall|k1: int, k2: int|
            0 <= k1 < k2 < order.len() ==> skim_score(index[#[trigger] order[k1]], query)->0
                >= skim_score(index[#[trigger] order[k2]], query)->0,
        forall|k: int| 0 <= k < order.len() ==> skim_score(index[#[trigger] order[k]], query) is Some,
        forall|i: int|
            0 <= i < index.len() && #[trigger] skim_score(index[i], query) is Some ==> order.contains(i),
{
    assert forall|k1: int, k2: int| 0 <= k1 < k2 < order.len() implies skim_score(
        index[#[trigger] order[k1]],
        query,
    )->0 >= skim_score(index[#[trigger] order[k2]], query)->0 by {
        assert(ranks_before(index, query, order[k1], order[k2]));
    }
}

/// Ranks the entries of `index` against `query`; entries that do not match
/// are left out.
pub fn fuzzy_filter(index: &Vec<String>, query: &str) -> (r: Vec<String>)
    ensures
        is_filtered_view(views(index@), query@, views(r@)),
{
    let ghost ix = views(index@);
    let mut keyed: Vec<(i128, usize)> = Vec::new();
    let n = index.len();
    for i in 0..n
        invariant
            n == index@.len(),
            ix == views(index@),
            forall|m: int|
                0 <= m < keyed@.len() ==> {
                    let p = #[trigger] keyed@[m];
                    &&& p.1 < i
                    &&& skim_score(ix[p.1 as int], query@) is Some
                    &&& p.0 == -(skim_score(ix[p.1 as int], query@)->0)
                },
            forall|m1: int, m2: int|
                0 <= m1 < m2 < keyed@.len() ==> #[trigger] keyed@[m1].1 < #[trigger] keyed@[m2].1,
            forall|j: int|
                0 <= j < i && #[trigger] skim_score(ix[j], query@) is Some ==> keyed@.contains(
                    (-(skim_score(ix[j], query@)->0) as i128, j as usize),
                ),
    {
        let s = fuzzy_score(index[i].as_str(), query);
        if let Some(v) = s {
            let ghost old_keyed = keyed@;
            keyed.push((-(v as i128), i));
            proof {
                assert forall|j: int|
                    0 <= j < i + 1 && #[trigger] skim_score(ix[j], query@) is Some implies keyed@.contains(
                    (-(skim_score(ix[j], query@)->0) as i128, j as usize),
                ) by {
                    if j == i {
                        assert(keyed@[keyed@.len() - 1] == ((-(v as i128)) as i128, i));
                    } else {
                        let m = choose|m: int|
                            0 <= m < old_keyed.len() && old_keyed[m] == (
                                -(skim_score(ix[j], query@)->0) as i128,
                                j as usize,
                            );
                        assert(keyed@[m] == old_keyed[m]);
                    }
                }
            }
        }
    }
    let ghost keyed_v = keyed@;
    let sorted = sort_pairs(keyed);
    proof {
        assert(keyed_v.no_duplicates());
        keyed_v.lemma_multiset_has_no_duplicates();
        sorted@.lemma_multiset_has_no_duplicates_conv();
        assert forall|x: (i128, usize)| sorted@.contains(x) <==> keyed_v.contains(x) by {
            vstd::seq_lib::to_multiset_contains(sorted@, x);
            vstd::seq_lib::to_multiset_contains(keyed_v, x);
        }
        assert forall|k: int| 0 <= k < sorted@.len() implies {
            let p = #[trigger] sorted@[k];
            &&& p.1 < n
            &&& skim_score(ix[p.1 as int], query@) is Some
            &&& p.0 == -(skim_score(ix[p.1 as int], query@)->0)
        } by {
            assert(sorted@.contains(sorted@[k]));
            assert(keyed_v.contains(sorted@[k]));
            let m = choose|m: int| 0 <= m < keyed_v.len() && keyed_v[m] == sorted@[k];
            assert(keyed_v[m] == sorted@[k]);
        }
    }
    let ghost order = sorted@.map_values(|p: (i128, usize)| p.1 as int);
    let mut r: Vec<String> = Vec::new();
    let m = sorted.len();
    for k in 0..m
        invariant
            m == sorted@.len(),
            n == index@.len(),
            ix == views(index@),
            order == sorted@.map_values(|p: (i128, usize)| p.1 as int),
            ix.len() == n,
            forall|x: (i128, usize)| sorted@.contains(x) ==> keyed_v.contains(x),
            forall|q: int|
                0 <= q < sorted@.len() ==> {
                    let p = #[trigger] sorted@[q];
                    &&& p.1 < n
                    &&& skim_score(ix[p.1 as int], query@) is Some
                    &&& p.0 == -(skim_score(ix[p.1 as int], query@)->0)
                },
            r@.len() == k,
            forall|q: int| 0 <= q < k ==> (#[trigger] r@[q])@ == cleaned(ix[order[q]]),
    {
        let p = sorted[k];
        let c = clean_utf8_content(index[p.1].as_str());
        r.push(c);
    }
    proof {
        assert forall|k: int| 0 <= k < order.len() implies 0 <= #[trigger] order[k] < ix.len()
            && skim_score(ix[order[k]], query@) is Some by {
            assert(sorted@.contains(sorted@[k]));
        }
        assert forall|i: int|
            0 <= i < ix.len() && #[trigger] skim_score(ix[i], query@) is Some implies order.contains(i) by {
            let x = (-(skim_score(ix[i], query@)->0) as i128, i as usize);
            assert(keyed_v.contains(x));
            let k = choose|k: int| 0 <= k < sorted@.len() && sorted@[k] == x;
            assert(order[k] == i);
        }
        assert forall|k1: int, k2: int| 0 <= k1 < k2 < order.len() implies ranks_before(
            ix,
            query@,
            #[trigger] order[k1],
            #[trigger] order[k2],
        ) by {
            let p1 = sorted@[k1];
            let p2 = sorted@[k2];
            assert(pair_le(sorted@[k1], sorted@[k2]));
            assert(sorted@[k1] != sorted@[k2]);
        }
        assert(is_ranking(ix, query@, order));
        assert(views(r@).len() == order.len());
        assert forall|k: int| 0 <= k < order.len() implies views(r@)[k] == cleaned(
            ix[#[trigger] order[k]],
        ) by {
            assert(r@[k]@ == cleaned(ix[order[k]]));
        }
    }
    r
}

} // verus!
