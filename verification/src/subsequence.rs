//! Subsequences: what is left of a sequence when elements are deleted.

use vstd::prelude::*;

verus! {

/// `at` places every element of `part` in `whole`, keeping the order: it is a
/// strictly increasing list of positions of `whole`, one for each element of
/// `part`, and `whole` holds that element there.
pub open spec fn embeds<T>(part: Seq<T>, whole: Seq<T>, at: Seq<int>) -> bool {
    &&& at.len() == part.len()
    &&& forall|i: int| 0 <= i < at.len() ==> 0 <= #[trigger] at[i] < whole.len()
    &&& forall|i: int| 0 <= i < at.len() ==> whole[#[trigger] at[i]] == part[i]
    &&& forall|i: int, j: int| 0 <= i < j < at.len() ==> #[trigger] at[i] < #[trigger] at[j]
}

/// `part` can be had from `whole` by deleting elements.
pub open spec fn is_subsequence<T>(part: Seq<T>, whole: Seq<T>) -> bool {
    exists|at: Seq<int>| embeds(part, whole, at)
}

/// How a filter moves when the sequence grows by one element.
pub proof fn lemma_filter_take_step<T>(s: Seq<T>, keep: spec_fn(T) -> bool, i: int)
    requires
        0 <= i < s.len(),
    ensures
        s.take(i + 1).filter(keep) == if keep(s[i]) {
            s.take(i).filter(keep).push(s[i])
        } else {
            s.take(i).filter(keep)
        },
{
    reveal(Seq::filter);
    assert(s.take(i + 1).drop_last() =~= s.take(i));
}

/// Filtering deletes elements and keeps the order of the rest.
pub proof fn lemma_filter_is_subsequence<T>(s: Seq<T>, keep: spec_fn(T) -> bool)
    ensures
        is_subsequence(s.filter(keep), s),
    decreases s.len(),
{
    reveal(Seq::filter);
    if s.len() == 0 {
        assert(embeds(s.filter(keep), s, Seq::<int>::empty()));
    } else {
        let front = s.drop_last();
        lemma_filter_is_subsequence(front, keep);
        let at = choose|at: Seq<int>| embeds(front.filter(keep), front, at);
        if keep(s.last()) {
            let longer = at.push(s.len() - 1);
            assert(embeds(s.filter(keep), s, longer));
        } else {
            assert(embeds(s.filter(keep), s, at));
        }
    }
}

/// Mapping both sequences by one function keeps the relation.
pub proof fn lemma_subsequence_map<T, U>(part: Seq<T>, whole: Seq<T>, f: spec_fn(T) -> U)
    requires
        is_subsequence(part, whole),
    ensures
        is_subsequence(part.map_values(f), whole.map_values(f)),
{
    let at = choose|at: Seq<int>| embeds(part, whole, at);
    assert(embeds(part.map_values(f), whole.map_values(f), at));
}

/// A subsequence of a subsequence is a subsequence.
pub proof fn lemma_subsequence_transitive<T>(part: Seq<T>, middle: Seq<T>, whole: Seq<T>)
    requires
        is_subsequence(part, middle),
        is_subsequence(middle, whole),
    ensures
        is_subsequence(part, whole),
{
    let inner = choose|at: Seq<int>| embeds(part, middle, at);
    let outer = choose|at: Seq<int>| embeds(middle, whole, at);
    let at = Seq::new(part.len(), |i: int| outer[inner[i]]);
    assert forall|i: int, j: int| 0 <= i < j < at.len() implies #[trigger] at[i]
        < #[trigger] at[j] by {
        assert(inner[i] < inner[j]);
        assert(outer[inner[i]] < outer[inner[j]]);
    }
    assert forall|i: int| 0 <= i < at.len() implies whole[#[trigger] at[i]] == part[i] by {
        assert(middle[inner[i]] == part[i]);
        assert(whole[outer[inner[i]]] == middle[inner[i]]);
    }
    assert(embeds(part, whole, at));
}

} // verus!
