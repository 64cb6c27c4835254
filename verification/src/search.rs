//! The first item of a sequence that has a wanted property.

use vstd::prelude::*;

verus! {

/// `i` is the place of the first item of `s` that is wanted.
pub open spec fn is_first<T>(s: Seq<T>, wanted: spec_fn(T) -> bool, i: int) -> bool {
    &&& 0 <= i < s.len()
    &&& wanted(s[i])
    &&& forall|j: int| 0 <= j < i ==> !wanted(#[trigger] s[j])
}

/// The place of the first item of `s` that is wanted, if there is one.
pub open spec fn first_place<T>(s: Seq<T>, wanted: spec_fn(T) -> bool) -> Option<int> {
    if exists|i: int| is_first(s, wanted, i) {
        Some(choose|i: int| is_first(s, wanted, i))
    } else {
        None
    }
}

/// Only one place is the first.
pub proof fn lemma_first_found<T>(s: Seq<T>, wanted: spec_fn(T) -> bool, i: int)
    requires
        is_first(s, wanted, i),
    ensures
        first_place(s, wanted) == Some(i),
{
    let k = choose|k: int| is_first(s, wanted, k);
    assert(is_first(s, wanted, k));
    if k < i {
        assert(!wanted(s[k]));
    } else if i < k {
        assert(!wanted(s[i]));
    }
}

/// Where no item is wanted, there is no first.
pub proof fn lemma_first_missing<T>(s: Seq<T>, wanted: spec_fn(T) -> bool)
    requires
        forall|j: int| 0 <= j < s.len() ==> !wanted(#[trigger] s[j]),
    ensures
        first_place(s, wanted) is None,
{
}

/// What `first_place` says: the place it names holds a wanted item and none
/// stands before it; where it names none, no item is wanted.
pub proof fn lemma_first_place<T>(s: Seq<T>, wanted: spec_fn(T) -> bool)
    ensures
        first_place(s, wanted) matches Some(i) ==> is_first(s, wanted, i),
        first_place(s, wanted) is None ==> forall|j: int|
            0 <= j < s.len() ==> !wanted(#[trigger] s[j]),
{
    if first_place(s, wanted) is None {
        assert forall|j: int| 0 <= j < s.len() implies !wanted(#[trigger] s[j]) by {
            if wanted(s[j]) {
                lemma_some_first(s, wanted, j);
            }
        }
    }
}

/// Where an item is wanted, some place is the first.
proof fn lemma_some_first<T>(s: Seq<T>, wanted: spec_fn(T) -> bool, j: int)
    requires
        0 <= j < s.len(),
        wanted(s[j]),
    ensures
        exists|i: int| is_first(s, wanted, i),
    decreases j,
{
    if exists|k: int| 0 <= k < j && wanted(#[trigger] s[k]) {
        let k = choose|k: int| 0 <= k < j && wanted(#[trigger] s[k]);
        lemma_some_first(s, wanted, k);
    } else {
        assert(is_first(s, wanted, j));
    }
}

} // verus!
