//! Facts about filtering a sequence that the tables and their model rest on.

use vstd::prelude::*;

verus! {

/// A filter that every element passes changes nothing.
pub proof fn lemma_filter_all<A>(s: Seq<A>, keep: spec_fn(A) -> bool)
    requires
        forall|i: int| 0 <= i < s.len() ==> keep(#[trigger] s[i]),
    ensures
        s.filter(keep) == s,
    decreases s.len(),
{
    reveal(Seq::filter);
    if s.len() > 0 {
        lemma_filter_all(s.drop_last(), keep);
        assert(s.drop_last().push(s.last()) == s);
    }
}

/// A filter that no element passes leaves nothing.
pub proof fn lemma_filter_none<A>(s: Seq<A>, keep: spec_fn(A) -> bool)
    requires
        forall|i: int| 0 <= i < s.len() ==> !keep(#[trigger] s[i]),
    ensures
        s.filter(keep) == Seq::<A>::empty(),
    decreases s.len(),
{
    reveal(Seq::filter);
    if s.len() > 0 {
        lemma_filter_none(s.drop_last(), keep);
    }
}

/// Two filters that agree on every element of a sequence keep the same
/// elements of it.
pub proof fn lemma_filter_same<A>(s: Seq<A>, keep: spec_fn(A) -> bool, other: spec_fn(A) -> bool)
    requires
        forall|i: int| 0 <= i < s.len() ==> keep(#[trigger] s[i]) == other(s[i]),
    ensures
        s.filter(keep) == s.filter(other),
    decreases s.len(),
{
    reveal(Seq::filter);
    if s.len() > 0 {
        lemma_filter_same(s.drop_last(), keep, other);
    }
}

/// A filter that only the element at `at` fails removes that element.
pub proof fn lemma_filter_one_out<A>(s: Seq<A>, keep: spec_fn(A) -> bool, at: int)
    requires
        0 <= at < s.len(),
        !keep(s[at]),
        forall|i: int| 0 <= i < s.len() && i != at ==> keep(#[trigger] s[i]),
    ensures
        s.filter(keep) == s.remove(at),
    decreases s.len(),
{
    reveal(Seq::filter);
    let front = s.drop_last();
    if at == s.len() - 1 {
        lemma_filter_all(front, keep);
        assert(s.remove(at) == front);
    } else {
        lemma_filter_one_out(front, keep, at);
        assert(s.remove(at) == front.remove(at).push(s.last()));
    }
}

/// A filter that only the element at `at` passes keeps that element alone.
pub proof fn lemma_filter_one_in<A>(s: Seq<A>, keep: spec_fn(A) -> bool, at: int)
    requires
        0 <= at < s.len(),
        keep(s[at]),
        forall|i: int| 0 <= i < s.len() && i != at ==> !keep(#[trigger] s[i]),
    ensures
        s.filter(keep) == seq![s[at]],
    decreases s.len(),
{
    reveal(Seq::filter);
    let front = s.drop_last();
    if at == s.len() - 1 {
        lemma_filter_none(front, keep);
        assert(Seq::<A>::empty().push(s.last()) == seq![s[at]]);
    } else {
        lemma_filter_one_in(front, keep, at);
    }
}

/// Filtering and then mapping is mapping and then filtering, where the two
/// filters agree through the map.
pub proof fn lemma_filter_map<A, B>(
    s: Seq<A>,
    keep: spec_fn(A) -> bool,
    f: spec_fn(A) -> B,
    keep_mapped: spec_fn(B) -> bool,
)
    requires
        forall|i: int| 0 <= i < s.len() ==> keep(#[trigger] s[i]) == keep_mapped(f(s[i])),
    ensures
        s.filter(keep).map_values(f) == s.map_values(f).filter(keep_mapped),
    decreases s.len(),
{
    reveal(Seq::filter);
    if s.len() > 0 {
        let front = s.drop_last();
        lemma_filter_map(front, keep, f, keep_mapped);
        assert(s.map_values(f).drop_last() == front.map_values(f));
        assert(s.map_values(f).last() == f(s.last()));
        if keep(s.last()) {
            assert(front.filter(keep).push(s.last()).map_values(f) == front.filter(
                keep,
            ).map_values(f).push(f(s.last())));
        }
    } else {
        assert(s.filter(keep).map_values(f) == Seq::<B>::empty());
    }
}

/// What holds of every element holds of every element that a filter keeps.
pub proof fn lemma_filter_keeps_each<A>(
    s: Seq<A>,
    keep: spec_fn(A) -> bool,
    holds: spec_fn(A) -> bool,
)
    requires
        forall|i: int| 0 <= i < s.len() ==> holds(#[trigger] s[i]),
    ensures
        forall|a: int| 0 <= a < s.filter(keep).len() ==> holds(#[trigger] s.filter(keep)[a]),
    decreases s.len(),
{
    reveal(Seq::filter);
    if s.len() > 0 {
        let front = s.drop_last();
        lemma_filter_keeps_each(front, keep, holds);
        let kept = s.filter(keep);
        assert forall|a: int| 0 <= a < kept.len() implies holds(#[trigger] kept[a]) by {
            if a < front.filter(keep).len() {
                assert(kept[a] == front.filter(keep)[a]);
            } else {
                assert(kept[a] == s[s.len() - 1]);
            }
        }
    }
}

/// What holds of every element together with every later one holds so among
/// the elements that a filter keeps: they stay in their order.
pub proof fn lemma_filter_keeps_pairs<A>(
    s: Seq<A>,
    keep: spec_fn(A) -> bool,
    related: spec_fn(A, A) -> bool,
)
    requires
        forall|i: int, j: int| 0 <= i < j < s.len() ==> related(#[trigger] s[i], #[trigger] s[j]),
    ensures
        forall|a: int, b: int|
            0 <= a < b < s.filter(keep).len() ==> related(
                #[trigger] s.filter(keep)[a],
                #[trigger] s.filter(keep)[b],
            ),
    decreases s.len(),
{
    reveal(Seq::filter);
    if s.len() > 0 {
        let front = s.drop_last();
        lemma_filter_keeps_pairs(front, keep, related);
        let kept = front.filter(keep);
        assert forall|a: int| 0 <= a < kept.len() implies related(#[trigger] kept[a], s.last()) by {
            front.lemma_filter_contains_rev(keep, kept[a]);
            let i = choose|i: int| 0 <= i < front.len() && front[i] == kept[a];
            assert(related(s[i], s[s.len() - 1]));
        }
    }
}

} // verus!
