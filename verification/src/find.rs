//! Finding a widget by its identifier.

use vstd::prelude::*;

use crate::validate::ChildrenFault;
use crate::walk::none_wanted;
use crate::widget_id::WidgetId;
use crate::widget_ref::WidgetRef;

verus! {

impl<'w> WidgetRef<'w> {
    /// The property of a reference that its widget has the identifier `id`.
    pub open spec fn has_id(id: WidgetId) -> spec_fn(WidgetRef<'w>) -> bool {
        |r: WidgetRef<'w>| r.spec_id() == id
    }

    /// The first widget with the identifier `id` that a depth-first walk
    /// from this widget comes to, if it comes to any.
    pub open spec fn spec_find_widget_by_id(self, id: WidgetId) -> Option<WidgetRef<'w>> {
        self.first_wanted(Self::has_id(id))
    }

    /// The property of a reference at which a lookup of `id` ends: its widget
    /// has that identifier, or its children cannot be listed.
    pub open spec fn ends_lookup(id: WidgetId) -> spec_fn(WidgetRef<'w>) -> bool {
        |r: WidgetRef<'w>| r.spec_id() == id || !r.can_list_children()
    }

    /// Looks for the widget with the identifier `id` among this widget and
    /// everything below it, in a tree that need not hang together.
    ///
    /// The walk is depth-first: a widget comes before its children, and the
    /// children come in declared order. It ends at the first widget that has
    /// the identifier or whose children cannot be listed. If that widget has
    /// the identifier, it is found, whatever lies further on; if not, the
    /// lookup fails with what is wrong at that widget.
    pub fn try_find_widget_by_id(&self, id: WidgetId) -> (found: Result<
        Option<WidgetRef<'w>>,
        ChildrenFault,
    >)
        ensures
            match self.first_wanted(Self::ends_lookup(id)) {
                None => found matches Ok(None),
                Some(end) => if end.spec_id() == id {
                    found matches Ok(Some(widget)) && widget == end
                } else {
                    found matches Err(fault) && fault.describes(end)
                },
            },
        decreases self.widget_state_children.nodes,
    {
        let ghost ends = Self::ends_lookup(id);
        if self.state().id == id {
            proof {
                self.lemma_first_wanted_is_self(ends);
            }
            return Ok(Some(*self));
        }
        let children = match self.try_children() {
            Ok(children) => children,
            Err(fault) => {
                proof {
                    self.lemma_first_wanted_is_self(ends);
                }
                return Err(fault);
            },
        };
        let n = children.len();
        let mut i: usize = 0;
        while i < n
            invariant
                self.can_list_children(),
                children@ == self.spec_children(),
                n == self.declared().len(),
                0 <= i <= n,
                ends == Self::ends_lookup(id),
                !ends(*self),
                none_wanted(self.preorder_below(i as int), ends),
            decreases n - i,
        {
            let child = children.get(i).unwrap();
            proof {
                assert(self.resolves(self.declared()[i as int]));
                assert(child == self.child_at(i as int));
                self.lemma_first_wanted_through_child(ends, i as int);
            }
            let found = child.try_find_widget_by_id(id);
            match found {
                Ok(None) => {},
                _ => {
                    return found;
                },
            }
            i += 1;
        }
        proof {
            self.lemma_first_wanted_nowhere(ends);
        }
        Ok(None)
    }

    /// Looks for the widget with the identifier `id` among this widget and
    /// everything below it, in a tree that hangs together, so that the
    /// lookup cannot fail. Where several widgets have that identifier, the
    /// one that a depth-first walk meets first is returned.
    pub fn find_widget_by_id(&self, id: WidgetId) -> (found: Option<WidgetRef<'w>>)
        requires
            self.well_formed(),
        ensures
            found == self.spec_find_widget_by_id(id),
    {
        proof {
            lemma_try_find_in_well_formed_tree(*self, id);
            self.lemma_first_wanted(Self::has_id(id));
        }
        self.try_find_widget_by_id(id).unwrap()
    }
}

/// In a tree that hangs together, a lookup ends at the first widget of the
/// walk that has the identifier, and nowhere if there is none: no widget ends
/// it for its children.
pub proof fn lemma_try_find_in_well_formed_tree(root: WidgetRef, id: WidgetId)
    requires
        root.well_formed(),
    ensures
        root.first_wanted(WidgetRef::ends_lookup(id)) == root.spec_find_widget_by_id(id),
{
    let walk = root.preorder();
    root.lemma_walk_is_well_formed();
    assert forall|k: int| 0 <= k < walk.len() implies WidgetRef::ends_lookup(id)(
        #[trigger] walk[k],
    ) == WidgetRef::has_id(id)(walk[k]) by {
        walk[k].lemma_well_formed_children();
    }
    root.lemma_first_wanted_agrees(WidgetRef::ends_lookup(id), WidgetRef::has_id(id));
}

/// A lookup by identifier returns a widget of that identifier out of the
/// tree below `root`, and it returns one exactly if the tree holds one.
pub proof fn lemma_find_widget_by_id_finds_what_is_there(root: WidgetRef, id: WidgetId)
    ensures
        root.spec_find_widget_by_id(id) matches Some(found) ==> {
            &&& found.spec_id() == id
            &&& root.preorder().contains(found)
        },
        root.spec_find_widget_by_id(id) is Some <==> exists|k: int|
            0 <= k < root.preorder().len() && (#[trigger] root.preorder()[k]).spec_id() == id,
{
    let walk = root.preorder();
    let wanted = WidgetRef::has_id(id);
    root.lemma_first_wanted(wanted);
    if none_wanted(walk, wanted) {
        assert forall|k: int| 0 <= k < walk.len() implies (#[trigger] walk[k]).spec_id() != id by {
            assert(!wanted(walk[k]));
        }
    } else {
        let k = choose|k: int| 0 <= k < walk.len() && wanted(#[trigger] walk[k]);
        assert(walk[k].spec_id() == id);
    }
}

} // verus!
