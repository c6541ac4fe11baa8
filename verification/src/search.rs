//! The first element of a sequence that satisfies a predicate.

use vstd::prelude::*;

verus! {

/// `index` is in range, the element there satisfies `pred`, and no element
/// before it does.
pub open spec fn is_first_match<T>(s: Seq<T>, pred: spec_fn(T) -> bool, index: int) -> bool {
    &&& 0 <= index < s.len()
    &&& pred(s[index])
    &&& forall|j: int| 0 <= j < index ==> !pred(#[trigger] s[j])
}

/// The lowest index whose element satisfies `pred`, if any element does.
pub open spec fn first_match<T>(s: Seq<T>, pred: spec_fn(T) -> bool) -> Option<int> {
    if exists|i: int| is_first_match(s, pred, i) {
        Some(choose|i: int| is_first_match(s, pred, i))
    } else {
        None
    }
}

/// There is at most one first match, so finding one determines `first_match`.
pub proof fn lemma_first_match_unique<T>(s: Seq<T>, pred: spec_fn(T) -> bool, index: int)
    requires
        is_first_match(s, pred, index),
    ensures
        first_match(s, pred) == Some(index),
{
    let chosen = choose|i: int| is_first_match(s, pred, i);
    if chosen < index {
        assert(!pred(s[chosen]));
    } else if index < chosen {
        assert(!pred(s[index]));
    }
}

/// Whenever some element satisfies `pred`, one of them comes first.
pub proof fn lemma_first_match_exists<T>(s: Seq<T>, pred: spec_fn(T) -> bool, index: int)
    requires
        0 <= index < s.len(),
        pred(s[index]),
    ensures
        first_match(s, pred) matches Some(first) && first <= index && is_first_match(s, pred, first),
    decreases index,
{
    if exists|j: int| 0 <= j < index && pred(s[j]) {
        let earlier = choose|j: int| 0 <= j < index && pred(s[j]);
        lemma_first_match_exists(s, pred, earlier);
    } else {
        lemma_first_match_unique(s, pred, index);
    }
}

/// `first_match` finds nothing exactly when no element satisfies `pred`, and
/// what it finds is a first match.
pub proof fn lemma_first_match_characterized<T>(s: Seq<T>, pred: spec_fn(T) -> bool)
    ensures
        first_match(s, pred) is None <==> forall|j: int| 0 <= j < s.len() ==> !pred(#[trigger] s[j]),
        first_match(s, pred) matches Some(first) ==> is_first_match(s, pred, first),
{
    if first_match(s, pred) is None {
        assert forall|j: int| 0 <= j < s.len() implies !pred(#[trigger] s[j]) by {
            if pred(s[j]) {
                lemma_first_match_exists(s, pred, j);
            }
        }
    }
}

/// Elements after the first match play no part: appending to a sequence that
/// has a match leaves the first match where it was.
pub proof fn lemma_first_match_ignores_later<T>(s: Seq<T>, later: Seq<T>, pred: spec_fn(T) -> bool)
    requires
        first_match(s, pred) is Some,
    ensures
        first_match(s + later, pred) == first_match(s, pred),
{
    lemma_first_match_characterized(s, pred);
    let first = first_match(s, pred).unwrap();
    lemma_first_match_unique(s + later, pred, first);
}

} // verus!
