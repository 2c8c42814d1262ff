//! Checks on the tree: that it hangs together, and that a pass has left no
//! work behind.

use vstd::prelude::*;

use crate::child_refs::{ChildRefs, MAX_CHILDREN};
use crate::search::{first_index, lemma_first_index, lemma_first_index_none};
use crate::walk::none_wanted;
use crate::widget_id::WidgetId;
use crate::widget_ref::WidgetRef;

verus! {

/// A widget that a check found in a state in which no pass may leave it.
#[derive(Clone, Debug)]
pub struct InvalidWidget {
    /// The name of the widget's type.
    pub widget_type: String,
    pub id: WidgetId,
}

/// A widget whose children cannot be listed.
#[derive(Clone, Debug)]
pub struct ChildrenFault {
    /// The name of the type of the widget that declares the children.
    pub parent_type: String,
    pub parent_id: WidgetId,
    /// The first declared child that is not in the tree. Where every child
    /// is there, the widget declares more children than a list holds.
    pub missing_child: Option<WidgetId>,
}

/// What a check of the tree can find wrong.
#[derive(Clone, Debug)]
pub enum ValidationError {
    /// A widget still waits for layout after layout has run.
    LayoutNotCleared(InvalidWidget),
    /// A widget declares a child that is not in the tree.
    Children(ChildrenFault),
}

impl ChildrenFault {
    /// Whether `self` says what keeps the children of `parent` from being
    /// listed.
    pub open spec fn describes(&self, parent: WidgetRef) -> bool {
        &&& !parent.can_list_children()
        &&& self.parent_type@ == parent.widget.widget_type@
        &&& self.parent_id == parent.spec_id()
        &&& self.missing_child == parent.spec_first_missing_child()
    }
}

impl<'w> WidgetRef<'w> {
    /// The property of an identifier that this widget does not find a child
    /// under it.
    pub open spec fn is_missing(self) -> spec_fn(WidgetId) -> bool {
        |id: WidgetId| !self.resolves(id)
    }

    /// The first declared child that is not in the tree, if there is one.
    pub open spec fn spec_first_missing_child(self) -> Option<WidgetId> {
        let at = first_index(self.declared(), self.is_missing(), 0);
        if at < self.declared().len() {
            Some(self.declared()[at])
        } else {
            None
        }
    }

    /// The property of a reference that its widget still waits for layout,
    /// itself or on behalf of a descendant.
    pub open spec fn has_pending_layout() -> spec_fn(WidgetRef<'w>) -> bool {
        |r: WidgetRef<'w>| r.widget_state.needs_layout
    }

    /// The first widget of the walk from this widget that still waits for
    /// layout, if there is one.
    pub open spec fn spec_first_pending_layout(self) -> Option<WidgetRef<'w>> {
        self.first_wanted(Self::has_pending_layout())
    }

    /// Looks for a child that the widget declares and that is not in the
    /// tree, and returns the identifier of the first one.
    pub fn first_missing_child(&self) -> (missing: Option<WidgetId>)
        ensures
            missing == self.spec_first_missing_child(),
            missing is None <==> forall|i: int|
                0 <= i < self.declared().len() ==> self.resolves(#[trigger] self.declared()[i]),
    {
        let ids = &self.widget.children_ids;
        let ghost wanted = self.is_missing();
        proof {
            lemma_first_index(self.declared(), wanted, 0);
        }
        let mut i: usize = 0;
        while i < ids.len()
            invariant
                ids == &self.widget.children_ids,
                wanted == self.is_missing(),
                0 <= i <= ids.len(),
                first_index(self.declared(), wanted, 0) == first_index(
                    self.declared(),
                    wanted,
                    i as int,
                ),
            decreases ids.len() - i,
        {
            let id = ids[i];
            let in_states = self.widget_state_children.into_child(id.to_raw()).is_some();
            let in_widgets = self.widget_children.into_child(id.to_raw()).is_some();
            if !in_states || !in_widgets {
                assert(wanted(self.declared()[i as int]));
                return Some(id);
            }
            assert(!wanted(self.declared()[i as int]));
            i += 1;
        }
        assert forall|i: int| 0 <= i < self.declared().len() implies self.resolves(
            #[trigger] self.declared()[i],
        ) by {
            assert(!wanted(self.declared()[i]));
        }
        None
    }

    /// The references to the widget's children, in declared order, or what
    /// keeps them from being listed.
    pub fn try_children(&self) -> (listed: Result<ChildRefs<'w>, ChildrenFault>)
        ensures
            match listed {
                Ok(children) => self.can_list_children() && children@ == self.spec_children(),
                Err(fault) => fault.describes(*self),
            },
    {
        let missing_child = self.first_missing_child();
        if missing_child.is_some() || self.widget.children_ids.len() > MAX_CHILDREN {
            return Err(
                ChildrenFault {
                    parent_type: self.widget.widget_type.clone(),
                    parent_id: self.state().id,
                    missing_child,
                },
            );
        }
        Ok(self.children())
    }

    /// Whether the tree from this widget downwards hangs together, so that
    /// it can be searched.
    pub fn is_well_formed(&self) -> (ok: bool)
        ensures
            ok == self.well_formed(),
        decreases self.widget_state_children.nodes,
    {
        if self.widget.children_ids.len() > MAX_CHILDREN {
            return false;
        }
        if self.first_missing_child().is_some() {
            return false;
        }
        let children = self.children();
        let n = children.len();
        let mut i: usize = 0;
        while i < n
            invariant
                self.can_list_children(),
                children@ == self.spec_children(),
                n == self.declared().len(),
                0 <= i <= n,
                forall|j: int| 0 <= j < i ==> (#[trigger] self.child_at(j)).well_formed(),
            decreases n - i,
        {
            let child = children.get(i).unwrap();
            assert(self.resolves(self.declared()[i as int]));
            assert(child == self.child_at(i as int));
            if !child.is_well_formed() {
                return false;
            }
            i += 1;
        }
        assert forall|j: int| 0 <= j < self.declared().len() implies {
            &&& self.resolves(#[trigger] self.declared()[j])
            &&& self.child(self.declared()[j]).well_formed()
        } by {
            assert(self.child_at(j).well_formed());
        }
        true
    }

    /// The property of a reference at which a check ends: with
    /// `after_layout` set its widget still waits for layout, or its children
    /// cannot be listed.
    pub open spec fn ends_validation(after_layout: bool) -> spec_fn(WidgetRef<'w>) -> bool {
        |r: WidgetRef<'w>|
            (after_layout && r.widget_state.needs_layout) || !r.can_list_children()
    }

    /// Checks what must hold of the tree between two passes. With
    /// `after_layout` set, no widget may still wait for layout; with or
    /// without it, the children of every widget that the walk comes to must
    /// be in the tree.
    ///
    /// The walk is depth-first and ends at the first widget that is out of
    /// order. A widget that
    /// still waits for layout is reported as that, whether or not its
    /// children can be listed; any other widget at which the walk ends is
    /// reported for its children.
    pub fn try_debug_validate(&self, after_layout: bool) -> (checked: Result<
        (),
        ValidationError,
    >)
        ensures
            match self.first_wanted(Self::ends_validation(after_layout)) {
                None => checked is Ok,
                Some(end) => if after_layout && end.widget_state.needs_layout {
                    &&& checked matches Err(ValidationError::LayoutNotCleared(invalid))
                    &&& invalid.id == end.spec_id()
                    &&& invalid.widget_type@ == end.widget.widget_type@
                } else {
                    &&& checked matches Err(ValidationError::Children(fault))
                    &&& fault.describes(end)
                },
            },
        decreases self.widget_state_children.nodes,
    {
        let ghost ends = Self::ends_validation(after_layout);
        if after_layout && self.state().needs_layout {
            proof {
                self.lemma_first_wanted_is_self(ends);
            }
            return Err(
                ValidationError::LayoutNotCleared(
                    InvalidWidget {
                        widget_type: self.widget.widget_type.clone(),
                        id: self.state().id,
                    },
                ),
            );
        }
        let children = match self.try_children() {
            Ok(children) => children,
            Err(fault) => {
                proof {
                    self.lemma_first_wanted_is_self(ends);
                }
                return Err(ValidationError::Children(fault));
            },
        };
        let n = children.len();
        let mut i: usize = 0;
        while i < n
            invariant
                self.can_list_children(),
                children@ == self.spec_children(),
                n == self.declared().len(),
                0 <= i <= n,
                ends == Self::ends_validation(after_layout),
                !ends(*self),
                none_wanted(self.preorder_below(i as int), ends),
            decreases n - i,
        {
            let child = children.get(i).unwrap();
            proof {
                assert(self.resolves(self.declared()[i as int]));
                assert(child == self.child_at(i as int));
                self.lemma_first_wanted_through_child(ends, i as int);
            }
            let checked = child.try_debug_validate(after_layout);
            if checked.is_err() {
                return checked;
            }
            i += 1;
        }
        proof {
            self.lemma_first_wanted_nowhere(ends);
        }
        Ok(())
    }

    /// Checks what must hold of the tree between two passes, in a tree that
    /// is known to be in order: it hangs together, and with `after_layout`
    /// set no widget in it still waits for layout.
    ///
    /// On any other tree the check has a failure to report, which this call
    /// has no way to do; [`WidgetRef::try_debug_validate`] is the check that
    /// decides and reports.
    pub fn debug_validate(&self, after_layout: bool)
        requires
            self.well_formed(),
            after_layout ==> self.spec_first_pending_layout() is None,
    {
        proof {
            lemma_try_debug_validate_in_well_formed_tree(*self, after_layout);
        }
        self.try_debug_validate(after_layout).unwrap()
    }
}

/// In a tree that hangs together, a check ends at the first widget of the
/// walk that still waits for layout if `after_layout` is set, and nowhere
/// otherwise: no widget ends it for its children.
pub proof fn lemma_try_debug_validate_in_well_formed_tree(root: WidgetRef, after_layout: bool)
    requires
        root.well_formed(),
    ensures
        root.first_wanted(WidgetRef::ends_validation(after_layout)) == (if after_layout {
            root.spec_first_pending_layout()
        } else {
            None
        }),
{
    let walk = root.preorder();
    let ends = WidgetRef::ends_validation(after_layout);
    root.lemma_walk_is_well_formed();
    assert forall|k: int| 0 <= k < walk.len() implies ends(#[trigger] walk[k]) == (after_layout
        && WidgetRef::has_pending_layout()(walk[k])) by {
        walk[k].lemma_well_formed_children();
    }
    if after_layout {
        root.lemma_first_wanted_agrees(ends, WidgetRef::has_pending_layout());
    } else {
        lemma_first_index_none(walk, ends, 0);
    }
}

} // verus!
