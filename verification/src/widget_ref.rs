//! A read-only reference to one widget in the tree.

use vstd::prelude::*;

use crate::child_refs::{ChildRefs, MAX_CHILDREN};
use crate::tree_arena::{ArenaRef, ArenaRefChildren};
use crate::widget::Widget;
use crate::widget_id::WidgetId;
use crate::widget_state::WidgetState;

verus! {

/// A reference to a widget together with its state record, and with the
/// handles through which the widget's children are found.
///
/// It serves to look into the tree: to find a widget by its identifier or by
/// a position, and to check that a pass has left the tree in order. It gives
/// no way to change anything.
#[derive(Clone, Copy)]
pub struct WidgetRef<'w> {
    pub widget_state_children: ArenaRefChildren<'w, WidgetState>,
    pub widget_children: ArenaRefChildren<'w, Widget>,
    pub widget_state: &'w WidgetState,
    pub widget: &'w Widget,
}

impl<'w> WidgetRef<'w> {
    /// The identifier of the widget, as its state record has it.
    pub open spec fn spec_id(&self) -> WidgetId {
        self.widget_state.id
    }

    /// The identifiers of the children that the widget declares.
    pub open spec fn declared(self) -> Seq<WidgetId> {
        self.widget.children_ids@
    }

    /// Whether both the state record and the widget of `id` are found
    /// directly below this widget.
    pub open spec fn resolves(self, id: WidgetId) -> bool {
        &&& self.widget_state_children.has_child(id.raw)
        &&& self.widget_children.has_child(id.raw)
    }

    /// The reference to the child `id`.
    pub open spec fn child(self, id: WidgetId) -> WidgetRef<'w> {
        let state = self.widget_state_children.child(id.raw);
        let widget = self.widget_children.child(id.raw);
        WidgetRef {
            widget_state_children: state.children,
            widget_children: widget.children,
            widget_state: state.item,
            widget: widget.item,
        }
    }

    /// Whether the children of this widget can be listed: every child that
    /// the widget declares is in the tree, and there are no more of them than
    /// a list holds.
    pub open spec fn can_list_children(self) -> bool {
        &&& self.declared().len() <= MAX_CHILDREN
        &&& forall|i: int|
            0 <= i < self.declared().len() ==> self.resolves(#[trigger] self.declared()[i])
    }

    /// The reference to the child at place `i` of the declared children.
    pub open spec fn child_at(self, i: int) -> WidgetRef<'w> {
        self.child(self.declared()[i])
    }

    /// The references to the children, in declared order.
    pub open spec fn spec_children(self) -> Seq<WidgetRef<'w>> {
        Seq::new(self.declared().len(), |i: int| self.child_at(i))
    }

    /// Whether the tree from this widget downwards hangs together: at every
    /// widget in it, the children can be listed.
    pub open spec fn well_formed(self) -> bool
        decreases self.widget_state_children.nodes,
    {
        &&& self.declared().len() <= MAX_CHILDREN
        &&& forall|i: int|
            0 <= i < self.declared().len() ==> {
                &&& self.resolves(#[trigger] self.declared()[i])
                &&& self.child(self.declared()[i]).well_formed()
            }
    }

    /// In a tree that hangs together, the children of the root can be listed
    /// and the tree below each child hangs together.
    pub proof fn lemma_well_formed_children(self)
        requires
            self.well_formed(),
        ensures
            self.can_list_children(),
            forall|i: int|
                0 <= i < self.declared().len() ==> (#[trigger] self.child_at(i)).well_formed(),
    {
        assert forall|i: int| 0 <= i < self.declared().len() implies (#[trigger] self.child_at(
            i,
        )).well_formed() by {
            assert(self.resolves(self.declared()[i]));
        }
    }

    /// The reference to the widget whose state record is `state` and whose
    /// own data is `widget`, two views of the same place in the tree.
    pub fn new(state: ArenaRef<'w, WidgetState>, widget: ArenaRef<'w, Widget>) -> (reference:
        WidgetRef<'w>)
        ensures
            reference == (WidgetRef {
                widget_state_children: state.children,
                widget_children: widget.children,
                widget_state: state.item,
                widget: widget.item,
            }),
    {
        WidgetRef {
            widget_state_children: state.children,
            widget_children: widget.children,
            widget_state: state.item,
            widget: widget.item,
        }
    }

    /// The state record of the widget.
    pub fn state(self) -> (state: &'w WidgetState)
        ensures
            state == self.widget_state,
    {
        self.widget_state
    }

    /// The widget itself.
    pub fn deref(self) -> (widget: &'w Widget)
        ensures
            widget == self.widget,
    {
        self.widget
    }

    /// The identifier of the widget.
    #[verifier::when_used_as_spec(spec_id)]
    pub fn id(&self) -> (id: WidgetId)
        ensures
            id == self.widget_state.id,
    {
        self.widget_state.id
    }

    /// Narrows the reference to a widget of the type named `widget_type`:
    /// the reference itself if the widget is of that type, else nothing.
    pub fn downcast(&self, widget_type: &str) -> (narrowed: Option<WidgetRef<'w>>)
        ensures
            narrowed == (if self.widget.widget_type@ == widget_type@ {
                Some(*self)
            } else {
                None
            }),
    {
        let wanted = String::from_str(widget_type);
        if self.widget.widget_type == wanted {
            Some(*self)
        } else {
            None
        }
    }

    /// The reference without any claim to the widget's type. Widgets are
    /// held as plain records here, so this is the reference itself.
    pub fn as_dyn(&self) -> (erased: WidgetRef<'w>)
        ensures
            erased == *self,
    {
        *self
    }

    /// The references to the widget's children, in declared order.
    ///
    /// A widget that declares a child which is not in the tree has no list
    /// of children; [`WidgetRef::first_missing_child`] tells whether it does.
    pub fn children(&self) -> (children: ChildRefs<'w>)
        requires
            self.can_list_children(),
        ensures
            children@ == self.spec_children(),
    {
        let ids = &self.widget.children_ids;
        let mut children = ChildRefs::new();
        let mut i: usize = 0;
        while i < ids.len()
            invariant
                ids == &self.widget.children_ids,
                self.can_list_children(),
                0 <= i <= ids.len(),
                children@ == self.spec_children().take(i as int),
            decreases ids.len() - i,
        {
            let id = ids[i].to_raw();
            assert(self.resolves(self.declared()[i as int]));
            let state_ref = self.widget_state_children.into_child(id).unwrap();
            let widget_ref = self.widget_children.into_child(id).unwrap();
            children.push(
                WidgetRef {
                    widget_state_children: state_ref.children,
                    widget_children: widget_ref.children,
                    widget_state: state_ref.item,
                    widget: widget_ref.item,
                },
            );
            assert(children@ =~= self.spec_children().take(i + 1));
            i += 1;
        }
        assert(self.spec_children().take(ids.len() as int) =~= self.spec_children());
        children
    }
}

} // verus!
