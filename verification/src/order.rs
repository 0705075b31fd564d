//! Ordering of (time, key) pairs: by time, then by key.
use vstd::prelude::*;
use vstd::relations::{sorted_by, total_ordering};

verus! {

broadcast use vstd::seq_lib::group_to_multiset_ensures;

/// Pairs ordered by their first component, then their second.
pub open spec fn pair_leq() -> spec_fn((i64, u64), (i64, u64)) -> bool {
    |a: (i64, u64), b: (i64, u64)| a.0 < b.0 || (a.0 == b.0 && a.1 <= b.1)
}

/// `x` comes strictly before `y`: earlier first component, or the same and
/// a smaller second.
pub open spec fn key_before(x: (i64, u64), y: (i64, u64)) -> bool {
    x.0 < y.0 || (x.0 == y.0 && x.1 < y.1)
}

/// The pair order is a total order.
pub proof fn lemma_pair_leq_total()
    ensures
        total_ordering(pair_leq()),
{
}

/// The pairs of `raw`, sorted by first component, then second.
pub fn sort_pairs(raw: &Vec<(i64, u64)>) -> (out: Vec<(i64, u64)>)
    ensures
        out@ == raw@.sort_by(pair_leq()),
{
    let mut out: Vec<(i64, u64)> = Vec::new();
    let mut i: usize = 0;
    while i < raw.len()
        invariant
            i <= raw@.len(),
            sorted_by(out@, pair_leq()),
            out@.to_multiset() == raw@.subrange(0, i as int).to_multiset(),
        decreases raw@.len() - i,
    {
        let x = raw[i];
        let mut pos: usize = 0;
        while pos < out.len() && (out[pos].0 < x.0 || (out[pos].0 == x.0 && out[pos].1 <= x.1))
            invariant
                pos <= out@.len(),
                forall|j: int| 0 <= j < pos ==> (pair_leq())(out@[j], x),
            decreases out@.len() - pos,
        {
            pos += 1;
        }
        let ghost before = out@;
        out.insert(pos, x);
        proof {
            assert(out@ == before.insert(pos as int, x));
            assert forall|a: int, b: int| 0 <= a < b < out@.len() implies #[trigger] (pair_leq())(out@[a], out@[b]) by {
                if b < pos {
                    assert(out@[a] == before[a] && out@[b] == before[b]);
                } else if b == pos {
                    assert(out@[a] == before[a]);
                } else if a == pos {
                    assert(out@[b] == before[b - 1]);
                    assert((pair_leq())(before[pos as int], before[b - 1]));
                } else if a < pos {
                    assert(out@[a] == before[a] && out@[b] == before[b - 1]);
                } else {
                    assert(out@[a] == before[a - 1] && out@[b] == before[b - 1]);
                }
            }
            assert(raw@.subrange(0, i + 1) =~= raw@.subrange(0, i as int).push(x));
        }
        i += 1;
    }
    proof {
        assert(raw@.subrange(0, raw@.len() as int) =~= raw@);
        lemma_pair_leq_total();
        raw@.lemma_sort_by_ensures(pair_leq());
        vstd::seq_lib::lemma_sorted_unique(out@, raw@.sort_by(pair_leq()), pair_leq());
    }
    out
}

} // verus!
