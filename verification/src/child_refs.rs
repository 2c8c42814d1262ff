//! The list of references that [`WidgetRef::children`] hands out.
//!
//! Most widgets have few children, so the list is a `SmallVec` with room for
//! sixteen references before it allocates. Verus cannot look into that type;
//! the four functions at the end of this file say what the calls into it do,
//! and everything else goes through them.

use smallvec::SmallVec;
use vstd::prelude::*;

use crate::widget_ref::WidgetRef;

verus! {

/// The most references that a list is ever asked to hold.
///
/// `SmallVec::push` grows a full buffer to the next power of two and panics
/// when that many items would take more than `isize::MAX` bytes. A reference
/// is four pointers, half as many bytes as `usize` has bits. A list shorter
/// than this bound grows to at most `usize::MAX / 128 + 1` items, which take
/// a quarter of the address space, so the panic is out of reach.
pub const MAX_CHILDREN: usize = usize::MAX / 128;

/// References to the children of one widget, in declared order.
///
/// The list is held in a `SmallVec`, which Verus does not look into: what a
/// list holds is known to proofs only as [`child_refs_items`], and only
/// through the four functions at the end of this file.
#[verifier::external_body]
pub struct ChildRefs<'w> {
    items: SmallVec<[WidgetRef<'w>; 16]>,
}

/// The references that `list` holds, first to last.
pub uninterp spec fn child_refs_items(list: ChildRefs<'_>) -> Seq<WidgetRef<'_>>;

impl<'w> View for ChildRefs<'w> {
    type V = Seq<WidgetRef<'w>>;

    open spec fn view(&self) -> Seq<WidgetRef<'w>> {
        child_refs_items(*self)
    }
}

impl<'w> ChildRefs<'w> {
    /// A list without references.
    pub fn new() -> (list: ChildRefs<'w>)
        ensures
            list@ == Seq::<WidgetRef<'w>>::empty(),
    {
        smallvec_new()
    }

    /// Puts `item` at the end of the list.
    pub fn push(&mut self, item: WidgetRef<'w>)
        requires
            old(self)@.len() < MAX_CHILDREN,
        ensures
            final(self)@ == old(self)@.push(item),
    {
        smallvec_push(self, item)
    }

    pub fn len(&self) -> (n: usize)
        ensures
            n == self@.len(),
    {
        smallvec_len(self)
    }

    pub fn is_empty(&self) -> (empty: bool)
        ensures
            empty == (self@.len() == 0),
    {
        smallvec_len(self) == 0
    }

    /// The reference at `index`, if the list is that long.
    pub fn get(&self, index: usize) -> (item: Option<WidgetRef<'w>>)
        ensures
            item == (if index < self@.len() {
                Some(self@[index as int])
            } else {
                None
            }),
    {
        if index < smallvec_len(self) {
            Some(smallvec_index(self, index))
        } else {
            None
        }
    }

    /// The references of the list, first to last, in a `Vec`.
    pub fn to_vec(&self) -> (items: Vec<WidgetRef<'w>>)
        ensures
            items@ == self@,
    {
        let n = smallvec_len(self);
        let mut items: Vec<WidgetRef<'w>> = Vec::new();
        let mut i: usize = 0;
        while i < n
            invariant
                n == self@.len(),
                0 <= i <= n,
                items@ == self@.take(i as int),
            decreases n - i,
        {
            items.push(smallvec_index(self, i));
            assert(self@.take(i as int).push(self@[i as int]) =~= self@.take(i + 1));
            i += 1;
        }
        assert(self@.take(n as int) =~= self@);
        items
    }
}

/// `SmallVec::new`: the list it makes is empty.
#[verifier::external_body]
pub(crate) fn smallvec_new<'w>() -> (list: ChildRefs<'w>)
    ensures
        child_refs_items(list) == Seq::<WidgetRef<'w>>::empty(),
{
    ChildRefs { items: SmallVec::new() }
}

/// `SmallVec::push`: afterwards the list holds what it held, and `item`
/// behind that. The bound keeps the list short of the length at which the
/// call panics for want of address space.
#[verifier::external_body]
pub(crate) fn smallvec_push<'w>(list: &mut ChildRefs<'w>, item: WidgetRef<'w>)
    requires
        child_refs_items(*old(list)).len() < MAX_CHILDREN,
    ensures
        child_refs_items(*final(list)) == child_refs_items(*old(list)).push(item),
{
    list.items.push(item)
}

/// `SmallVec::len`: the number of references that the list holds.
#[verifier::external_body]
pub(crate) fn smallvec_len<'w>(list: &ChildRefs<'w>) -> (n: usize)
    ensures
        n == child_refs_items(*list).len(),
{
    list.items.len()
}

/// Indexing a `SmallVec`, which goes through its slice: the reference at
/// `index`, counted from the front. The call panics past the end, which
/// `requires` rules out.
#[verifier::external_body]
pub(crate) fn smallvec_index<'w>(list: &ChildRefs<'w>, index: usize) -> (item: WidgetRef<'w>)
    requires
        index < child_refs_items(*list).len(),
    ensures
        item == child_refs_items(*list)[index as int],
{
    list.items[index]
}

} // verus!
