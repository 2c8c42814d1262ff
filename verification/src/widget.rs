//! What the tree reads of a widget.

use vstd::prelude::*;

use crate::widget_id::WidgetId;

verus! {

/// The part of a widget that lookups and hit-testing go by: the name of its
/// type, the children it declares, and whether the pointer passes through it.
/// What a widget draws or how it lays out its children is not the tree's
/// business and is not held here.
#[derive(Clone, Debug)]
pub struct Widget {
    /// The name of the widget's type. A reference is narrowed by this name,
    /// and diagnostics show it.
    pub widget_type: String,
    /// The children that the widget declares, in the order in which they are
    /// painted: a later child lies above an earlier one. They lie in a `Vec`,
    /// which Verus knows. (A `SmallVec` it takes only behind a struct that
    /// hides it and behind functions that are believed, one set for each
    /// type of item; the crate keeps to the one set that the list of
    /// references in [`crate::child_refs`] needs.)
    pub children_ids: Vec<WidgetId>,
    /// Whether hit-testing passes this widget over.
    pub skip_pointer: bool,
    /// A short text that tells this widget from others of its type.
    pub debug_text: Option<String>,
}

impl Widget {
    /// A widget of the type named `widget_type` that declares the children
    /// `children_ids`, takes part in hit-testing and has no debug text.
    pub fn new(widget_type: &str, children_ids: Vec<WidgetId>) -> (widget: Widget)
        ensures
            widget.widget_type@ == widget_type@,
            widget.children_ids == children_ids,
            !widget.skip_pointer,
            widget.debug_text is None,
    {
        Widget {
            widget_type: String::from_str(widget_type),
            children_ids,
            skip_pointer: false,
            debug_text: None,
        }
    }

    /// The name of the widget's type.
    pub fn short_type_name(&self) -> (name: &str)
        ensures
            name@ == self.widget_type@,
    {
        self.widget_type.as_str()
    }

    /// Whether hit-testing passes this widget over.
    pub fn skip_pointer(&self) -> (skip: bool)
        ensures
            skip == self.skip_pointer,
    {
        self.skip_pointer
    }
}

} // verus!
