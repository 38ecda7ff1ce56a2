//! Looking for the first element of a list that will do.

use vstd::prelude::*;

verus! {

/// The place of the first element that `wanted` accepts.
pub open spec fn first_index<A>(list: Seq<A>, wanted: spec_fn(A) -> bool) -> Option<int>
    decreases list.len(),
{
    if list.len() == 0 {
        None
    } else if wanted(list[0]) {
        Some(0)
    } else {
        match first_index(list.drop_first(), wanted) {
            Some(i) => Some(i + 1),
            None => None,
        }
    }
}

/// The first element is wanted, and none before it is; where there is none, no element is wanted.
pub proof fn lemma_first_index<A>(list: Seq<A>, wanted: spec_fn(A) -> bool)
    ensures
        match first_index(list, wanted) {
            Some(i) => {
                &&& 0 <= i < list.len()
                &&& wanted(list[i])
                &&& forall|j: int| 0 <= j < i ==> !wanted(#[trigger] list[j])
            },
            None => forall|j: int| 0 <= j < list.len() ==> !wanted(#[trigger] list[j]),
        },
    decreases list.len(),
{
    if list.len() > 0 && !wanted(list[0]) {
        let rest = list.drop_first();
        lemma_first_index(rest, wanted);
        assert forall|j: int|
            0 <= j < list.len() && (first_index(list, wanted) matches Some(i) ==> j
                < i) implies !wanted(#[trigger] list[j]) by {
            if j > 0 {
                assert(rest[j - 1] == list[j]);
            }
        }
    }
}

/// An element that is wanted while none before it is, is the first one.
pub proof fn lemma_is_first<A>(list: Seq<A>, wanted: spec_fn(A) -> bool, i: int)
    requires
        0 <= i < list.len(),
        wanted(list[i]),
        forall|j: int| 0 <= j < i ==> !wanted(#[trigger] list[j]),
    ensures
        first_index(list, wanted) == Some(i),
{
    lemma_first_index(list, wanted);
}

/// Where no element is wanted there is no first one.
pub proof fn lemma_no_first<A>(list: Seq<A>, wanted: spec_fn(A) -> bool)
    requires
        forall|j: int| 0 <= j < list.len() ==> !wanted(#[trigger] list[j]),
    ensures
        first_index(list, wanted) is None,
{
    lemma_first_index(list, wanted);
}

} // verus!
