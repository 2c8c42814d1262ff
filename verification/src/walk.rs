//! The depth-first walk through the tree below a widget, and where in it
//! a wanted widget first stands.

use vstd::prelude::*;

use crate::search::{
    first_index, lemma_first_index, lemma_first_index_agrees, lemma_first_index_is,
    lemma_first_index_none,
};
use crate::widget_ref::WidgetRef;

verus! {

/// Whether no item of `items` is wanted.
pub open spec fn none_wanted<A>(items: Seq<A>, wanted: spec_fn(A) -> bool) -> bool {
    forall|j: int| 0 <= j < items.len() ==> !wanted(#[trigger] items[j])
}

impl<'w> WidgetRef<'w> {
    /// The widgets from this one downwards in the order of a depth-first
    /// walk: a widget stands before its children, and the children follow one
    /// another in declared order.
    pub open spec fn preorder(self) -> Seq<WidgetRef<'w>>
        decreases self.widget_state_children.nodes, self.declared().len() + 1,
    {
        seq![self] + self.preorder_below(self.declared().len() as int)
    }

    /// The part of [`WidgetRef::preorder`] that the first `count` children
    /// and what lies below them make up.
    pub open spec fn preorder_below(self, count: int) -> Seq<WidgetRef<'w>>
        decreases self.widget_state_children.nodes, count,
    {
        if count <= 0 || count > self.declared().len() {
            Seq::empty()
        } else if self.resolves(self.declared()[count - 1]) {
            self.preorder_below(count - 1) + self.child(self.declared()[count - 1]).preorder()
        } else {
            self.preorder_below(count - 1)
        }
    }

    /// The first widget of the walk from this widget that is wanted, if
    /// there is one.
    pub open spec fn first_wanted(self, wanted: spec_fn(WidgetRef<'w>) -> bool) -> Option<
        WidgetRef<'w>,
    > {
        let walk = self.preorder();
        let at = first_index(walk, wanted, 0);
        if at < walk.len() {
            Some(walk[at])
        } else {
            None
        }
    }

    /// The walk through the first `count` children opens the walk through
    /// the first `more` of them.
    pub proof fn lemma_preorder_below_is_prefix(self, count: int, more: int)
        requires
            0 <= count <= more <= self.declared().len(),
        ensures
            self.preorder_below(count).len() <= self.preorder_below(more).len(),
            forall|j: int|
                0 <= j < self.preorder_below(count).len() ==> self.preorder_below(more)[j]
                    == self.preorder_below(count)[j],
        decreases more - count,
    {
        if count < more {
            self.lemma_preorder_below_is_prefix(count, more - 1);
        }
    }

    /// A widget that is wanted is itself the first wanted widget of its walk.
    pub proof fn lemma_first_wanted_is_self(self, wanted: spec_fn(WidgetRef<'w>) -> bool)
        requires
            wanted(self),
        ensures
            self.first_wanted(wanted) == Some(self),
    {
        assert(self.preorder()[0] == self);
    }

    /// Where neither the widget nor anything below its first `i` children
    /// is wanted, the first wanted widget below child `i` is the first
    /// wanted widget of the whole walk; and where child `i` has none either,
    /// nothing below the first `i + 1` children is wanted.
    pub proof fn lemma_first_wanted_through_child(
        self,
        wanted: spec_fn(WidgetRef<'w>) -> bool,
        i: int,
    )
        requires
            0 <= i < self.declared().len(),
            self.resolves(self.declared()[i]),
            !wanted(self),
            none_wanted(self.preorder_below(i), wanted),
        ensures
            self.child_at(i).first_wanted(wanted) is Some ==> self.first_wanted(wanted)
                == self.child_at(i).first_wanted(wanted),
            self.child_at(i).first_wanted(wanted) is None ==> none_wanted(
                self.preorder_below(i + 1),
                wanted,
            ),
    {
        let walk = self.preorder();
        let below = self.preorder_below(i);
        let inner = self.child_at(i).preorder();
        let next = self.preorder_below(i + 1);
        assert(next == below + inner);
        lemma_first_index(inner, wanted, 0);
        let at_inner = first_index(inner, wanted, 0);
        if at_inner < inner.len() {
            let at = 1 + below.len() + at_inner;
            self.lemma_preorder_below_is_prefix(i + 1, self.declared().len() as int);
            assert(walk[at] == inner[at_inner]);
            assert forall|j: int| 0 <= j < at implies !wanted(#[trigger] walk[j]) by {
                if j == 0 {
                    assert(walk[0] == self);
                } else if j <= below.len() {
                    assert(walk[j] == below[j - 1]);
                } else {
                    assert(walk[j] == inner[j - 1 - below.len()]);
                }
            }
            lemma_first_index_is(walk, wanted, 0, at);
        } else {
            assert forall|j: int| 0 <= j < next.len() implies !wanted(#[trigger] next[j]) by {
                if j < below.len() {
                    assert(next[j] == below[j]);
                } else {
                    assert(next[j] == inner[j - below.len()]);
                }
            }
        }
    }

    /// Where neither the widget nor anything below its children is wanted,
    /// the walk holds no wanted widget.
    pub proof fn lemma_first_wanted_nowhere(self, wanted: spec_fn(WidgetRef<'w>) -> bool)
        requires
            !wanted(self),
            none_wanted(self.preorder_below(self.declared().len() as int), wanted),
        ensures
            self.first_wanted(wanted) is None,
    {
        let walk = self.preorder();
        let below = self.preorder_below(self.declared().len() as int);
        assert forall|j: int| 0 <= j < walk.len() implies !wanted(#[trigger] walk[j]) by {
            if j == 0 {
                assert(walk[0] == self);
            } else {
                assert(walk[j] == below[j - 1]);
            }
        }
        lemma_first_index_none(walk, wanted, 0);
    }

    /// In a tree that hangs together, the tree below every widget of the walk
    /// hangs together.
    pub proof fn lemma_walk_is_well_formed(self)
        requires
            self.well_formed(),
        ensures
            forall|k: int|
                0 <= k < self.preorder().len() ==> (#[trigger] self.preorder()[k]).well_formed(),
        decreases self.widget_state_children.nodes, self.declared().len() + 1,
    {
        self.lemma_walk_below_is_well_formed(self.declared().len() as int);
        let below = self.preorder_below(self.declared().len() as int);
        assert forall|k: int| 0 <= k < self.preorder().len() implies (
        #[trigger] self.preorder()[k]).well_formed() by {
            if k > 0 {
                assert(self.preorder()[k] == below[k - 1]);
            }
        }
    }

    /// In a tree that hangs together, the tree below every widget that the
    /// walk through the first `count` children comes to hangs together.
    pub proof fn lemma_walk_below_is_well_formed(self, count: int)
        requires
            self.well_formed(),
            0 <= count <= self.declared().len(),
        ensures
            forall|k: int|
                0 <= k < self.preorder_below(count).len() ==> (#[trigger] self.preorder_below(
                    count,
                )[k]).well_formed(),
        decreases self.widget_state_children.nodes, count,
    {
        if count > 0 {
            assert(self.resolves(self.declared()[count - 1]));
            let before = self.preorder_below(count - 1);
            let child = self.child(self.declared()[count - 1]);
            self.lemma_walk_below_is_well_formed(count - 1);
            child.lemma_walk_is_well_formed();
            assert forall|k: int| 0 <= k < self.preorder_below(count).len() implies (
            #[trigger] self.preorder_below(count)[k]).well_formed() by {
                if k < before.len() {
                    assert(self.preorder_below(count)[k] == before[k]);
                } else {
                    assert(self.preorder_below(count)[k] == child.preorder()[k - before.len()]);
                }
            }
        }
    }

    /// Two properties that agree on every widget of the walk have their
    /// first wanted widget in common.
    pub proof fn lemma_first_wanted_agrees(
        self,
        wanted: spec_fn(WidgetRef<'w>) -> bool,
        other: spec_fn(WidgetRef<'w>) -> bool,
    )
        requires
            forall|k: int|
                0 <= k < self.preorder().len() ==> wanted(#[trigger] self.preorder()[k]) == other(
                    self.preorder()[k],
                ),
        ensures
            self.first_wanted(wanted) == self.first_wanted(other),
    {
        lemma_first_index_agrees(self.preorder(), wanted, other, 0);
    }

    /// The first wanted widget of a walk is wanted and stands in the walk,
    /// and there is one exactly if the walk holds a wanted widget.
    pub proof fn lemma_first_wanted(self, wanted: spec_fn(WidgetRef<'w>) -> bool)
        ensures
            self.first_wanted(wanted) matches Some(found) ==> wanted(found)
                && self.preorder().contains(found),
            self.first_wanted(wanted) is Some <==> !none_wanted(self.preorder(), wanted),
    {
        let walk = self.preorder();
        lemma_first_index(walk, wanted, 0);
        let at = first_index(walk, wanted, 0);
        if at < walk.len() {
            assert(wanted(walk[at]));
        }
    }
}

} // verus!
