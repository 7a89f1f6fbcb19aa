//! Facts about filtered sequences.

use vstd::prelude::*;

verus! {

/// What passes a filter keeps its order: two places of the filtered
/// sequence come from two places of the whole one, in the same order.
pub proof fn lemma_filter_order<A>(s: Seq<A>, pred: spec_fn(A) -> bool, i: int, j: int) -> (from: (
    int,
    int,
))
    requires
        0 <= i < j < s.filter(pred).len(),
    ensures
        0 <= from.0 < from.1 < s.len(),
        s[from.0] == s.filter(pred)[i],
        s[from.1] == s.filter(pred)[j],
    decreases s.len(),
{
    reveal(Seq::filter);
    let init = s.drop_last();
    if pred(s.last()) && j == s.filter(pred).len() - 1 {
        let a = lemma_filter_source(init, pred, i);
        (a, s.len() - 1)
    } else {
        lemma_filter_order(init, pred, i, j)
    }
}

/// What passes a filter comes from the whole sequence and meets the condition.
pub proof fn lemma_filter_source<A>(s: Seq<A>, pred: spec_fn(A) -> bool, i: int) -> (from: int)
    requires
        0 <= i < s.filter(pred).len(),
    ensures
        0 <= from < s.len(),
        s[from] == s.filter(pred)[i],
        pred(s[from]),
    decreases s.len(),
{
    reveal(Seq::filter);
    let init = s.drop_last();
    if pred(s.last()) && i == s.filter(pred).len() - 1 {
        s.len() - 1
    } else {
        lemma_filter_source(init, pred, i)
    }
}

/// What meets the condition passes the filter.
pub proof fn lemma_filter_keeps<A>(s: Seq<A>, pred: spec_fn(A) -> bool, i: int) -> (to: int)
    requires
        0 <= i < s.len(),
        pred(s[i]),
    ensures
        0 <= to < s.filter(pred).len(),
        s.filter(pred)[to] == s[i],
    decreases s.len(),
{
    reveal(Seq::filter);
    let init = s.drop_last();
    if i == s.len() - 1 {
        s.filter(pred).len() - 1
    } else {
        lemma_filter_keeps(init, pred, i)
    }
}

/// A sequence filtered after a change that leaves alone whatever meets the
/// condition, and lets nothing else meet it, is the sequence filtered.
pub proof fn lemma_filter_unchanged<A>(s: Seq<A>, change: spec_fn(A) -> A, pred: spec_fn(A) -> bool)
    requires
        forall|x: A| #[trigger] pred(x) ==> change(x) == x,
        forall|x: A| !pred(x) ==> !#[trigger] pred(change(x)),
    ensures
        s.map_values(change).filter(pred) == s.filter(pred),
    decreases s.len(),
{
    reveal(Seq::filter);
    if s.len() == 0 {
        assert(s.map_values(change) =~= s);
    } else {
        let init = s.drop_last();
        lemma_filter_unchanged(init, change, pred);
        assert(s.map_values(change).drop_last() =~= init.map_values(change));
        assert(s.map_values(change).last() == change(s.last()));
    }
}

/// Two conditions that agree on the items of a sequence filter it alike.
pub proof fn lemma_filter_same<A>(s: Seq<A>, p: spec_fn(A) -> bool, q: spec_fn(A) -> bool)
    requires
        forall|i: int| 0 <= i < s.len() ==> p(#[trigger] s[i]) == q(s[i]),
    ensures
        s.filter(p) == s.filter(q),
    decreases s.len(),
{
    reveal(Seq::filter);
    if s.len() > 0 {
        let init = s.drop_last();
        assert forall|i: int| 0 <= i < init.len() implies p(#[trigger] init[i]) == q(init[i]) by {
            assert(init[i] == s[i]);
        }
        lemma_filter_same(init, p, q);
        assert(p(s.last()) == q(s.last())) by {
            assert(s.last() == s[s.len() - 1]);
        }
    }
}

/// A sequence whose items all meet the condition passes the filter whole.
pub proof fn lemma_filter_all<A>(s: Seq<A>, pred: spec_fn(A) -> bool)
    requires
        forall|i: int| 0 <= i < s.len() ==> pred(#[trigger] s[i]),
    ensures
        s.filter(pred) == s,
    decreases s.len(),
{
    reveal(Seq::filter);
    if s.len() > 0 {
        let init = s.drop_last();
        assert forall|i: int| 0 <= i < init.len() implies pred(#[trigger] init[i]) by {
            assert(init[i] == s[i]);
        }
        lemma_filter_all(init, pred);
        assert(pred(s.last())) by {
            assert(s.last() == s[s.len() - 1]);
        }
        assert(init.push(s.last()) =~= s);
    } else {
        assert(s.filter(pred) =~= s);
    }
}

/// Filtering after a change that does not touch the condition is changing
/// after filtering.
pub proof fn lemma_filter_map_commute<A>(s: Seq<A>, change: spec_fn(A) -> A, pred: spec_fn(A) -> bool)
    requires
        forall|x: A| #[trigger] pred(change(x)) == pred(x),
    ensures
        s.map_values(change).filter(pred) == s.filter(pred).map_values(change),
    decreases s.len(),
{
    reveal(Seq::filter);
    if s.len() == 0 {
        assert(s.map_values(change).filter(pred) =~= s.filter(pred).map_values(change));
    } else {
        let init = s.drop_last();
        lemma_filter_map_commute(init, change, pred);
        assert(s.map_values(change).drop_last() =~= init.map_values(change));
        assert(s.map_values(change).last() == change(s.last()));
        assert(pred(change(s.last())) == pred(s.last()));
        if pred(s.last()) {
            assert(init.filter(pred).push(s.last()).map_values(change) =~= init.filter(
                pred,
            ).map_values(change).push(change(s.last())));
        }
    }
}

} // verus!
