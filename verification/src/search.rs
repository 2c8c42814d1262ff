//! The first place in a sequence at which something holds.

use vstd::prelude::*;

verus! {

/// The first index at or after `from` whose item satisfies `wanted`, or the
/// length of `items` if there is none.
pub open spec fn first_index<A>(items: Seq<A>, wanted: spec_fn(A) -> bool, from: int) -> int
    decreases items.len() - from,
{
    if from < 0 || from >= items.len() {
        items.len() as int
    } else if wanted(items[from]) {
        from
    } else {
        first_index(items, wanted, from + 1)
    }
}

/// What [`first_index`] returns lies between `from` and the length; where it
/// is an index, the item there is wanted and none between `from` and it is.
pub proof fn lemma_first_index<A>(items: Seq<A>, wanted: spec_fn(A) -> bool, from: int)
    requires
        0 <= from <= items.len(),
    ensures
        from <= first_index(items, wanted, from) <= items.len(),
        first_index(items, wanted, from) < items.len() ==> wanted(
            items[first_index(items, wanted, from)],
        ),
        forall|j: int|
            from <= j < first_index(items, wanted, from) ==> !wanted(#[trigger] items[j]),
    decreases items.len() - from,
{
    if from < items.len() && !wanted(items[from]) {
        lemma_first_index(items, wanted, from + 1);
    }
}

/// An index whose item is wanted, with no wanted item between `from` and it,
/// is what [`first_index`] returns.
pub proof fn lemma_first_index_is<A>(
    items: Seq<A>,
    wanted: spec_fn(A) -> bool,
    from: int,
    at: int,
)
    requires
        0 <= from <= at < items.len(),
        wanted(items[at]),
        forall|j: int| from <= j < at ==> !wanted(#[trigger] items[j]),
    ensures
        first_index(items, wanted, from) == at,
    decreases at - from,
{
    if from < at {
        assert(!wanted(items[from]));
        lemma_first_index_is(items, wanted, from + 1, at);
    }
}

/// Where no item at or after `from` is wanted, [`first_index`] returns the
/// length.
pub proof fn lemma_first_index_none<A>(items: Seq<A>, wanted: spec_fn(A) -> bool, from: int)
    requires
        0 <= from <= items.len(),
        forall|j: int| from <= j < items.len() ==> !wanted(#[trigger] items[j]),
    ensures
        first_index(items, wanted, from) == items.len(),
    decreases items.len() - from,
{
    if from < items.len() {
        assert(!wanted(items[from]));
        lemma_first_index_none(items, wanted, from + 1);
    }
}

/// Two properties that agree on every item at or after `from` have their
/// first index in common.
pub proof fn lemma_first_index_agrees<A>(
    items: Seq<A>,
    wanted: spec_fn(A) -> bool,
    other: spec_fn(A) -> bool,
    from: int,
)
    requires
        0 <= from <= items.len(),
        forall|j: int| from <= j < items.len() ==> wanted(#[trigger] items[j]) == other(items[j]),
    ensures
        first_index(items, wanted, from) == first_index(items, other, from),
    decreases items.len() - from,
{
    if from < items.len() {
        assert(wanted(items[from]) == other(items[from]));
        if !wanted(items[from]) {
            lemma_first_index_agrees(items, wanted, other, from + 1);
        }
    }
}

} // verus!
