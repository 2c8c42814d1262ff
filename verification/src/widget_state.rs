//! The state record that the tree keeps beside every widget.
//!
//! Each pass over the tree reads and clears the flags in these records. A flag
//! named `request_x` says that the widget itself must go through pass `x`; the
//! flag `needs_x` says that the widget or one of its descendants must. A pass
//! keeps the second kind up to date by calling [`WidgetState::merge_up`] on
//! the parent's record each time it comes back from a child.

use vstd::prelude::*;

use crate::cursor_icon::CursorIcon;
use crate::geometry::{Insets, Point, Rect, Size, Vec2};
use crate::widget_id::WidgetId;

verus! {

/// A text field that a widget has announced and that has not yet reached the
/// root of the tree.
#[derive(Clone, Copy, Debug, PartialEq, Eq, Structural)]
pub struct TextFieldRegistration {
    /// The widget that holds the text field.
    pub widget_id: WidgetId,
}

/// What the tree knows of one widget: where it lies, which passes it still
/// has to go through, and whether it is disabled, hot or focused.
#[derive(Clone, Debug)]
pub struct WidgetState {
    pub id: WidgetId,
    /// The size that the widget's layout returned.
    pub size: Size,
    /// The widget's origin in its parent's coordinate space.
    pub origin: Point,
    /// The widget's origin in the window's coordinate space.
    pub window_origin: Point,
    /// By how much the paint rectangle exceeds the layout rectangle.
    pub paint_insets: Insets,
    /// The paint rectangle in the widget's own coordinate space.
    pub local_paint_rect: Rect,
    /// How far the baseline lies above the bottom of the widget.
    pub baseline_offset: i64,
    pub is_portal: bool,
    /// Outside this rectangle, given in the widget's own coordinate space,
    /// neither the widget nor its descendants are painted or hit.
    pub clip: Option<Rect>,
    pub translation: Vec2,
    pub translation_changed: bool,
    /// Set while a layout pass waits for the parent to place this widget.
    pub is_expecting_place_child_call: bool,
    /// This widget asked for layout.
    pub request_layout: bool,
    /// This widget or a descendant asked for layout.
    pub needs_layout: bool,
    /// This widget must be composed.
    pub request_compose: bool,
    /// This widget or a descendant must be composed.
    pub needs_compose: bool,
    /// This widget must be painted.
    pub request_paint: bool,
    /// This widget or a descendant must be painted.
    pub needs_paint: bool,
    /// This widget's accessibility node must be rebuilt.
    pub request_accessibility: bool,
    /// This widget's accessibility node or a descendant's must be rebuilt.
    pub needs_accessibility: bool,
    /// This widget or a descendant asked for an animation frame.
    pub request_anim: bool,
    /// This widget or a descendant changed whether it is disabled.
    pub needs_update_disabled: bool,
    pub update_focus_chain: bool,
    pub focus_chain: Vec<WidgetId>,
    /// Children were added to or removed from this widget or a descendant.
    pub children_changed: bool,
    /// The pointer shape that the widget asked for, if it asked for one.
    pub cursor: Option<CursorIcon>,
    /// Text fields announced below this widget and not yet handed upwards.
    pub text_registrations: Vec<TextFieldRegistration>,
    /// This widget was disabled itself.
    pub is_explicitly_disabled: bool,
    /// This widget or an ancestor was disabled.
    pub is_disabled: bool,
    pub is_hot: bool,
    /// This widget lies on the path from the window to the focused widget.
    pub has_focus: bool,
    /// This widget is kept in the tree but takes no part in layout.
    pub is_stashed: bool,
    /// Set until the running pass has come to this widget.
    pub needs_visit: bool,
    /// The name of the widget's type, for diagnostics.
    pub widget_name: &'static str,
}

/// Whether the rectangle that starts at `origin` and has the extent `size`
/// holds `pos`. Its far corner is taken as the whole number it is, however
/// large.
pub open spec fn rect_holds(origin: Point, size: Size, pos: Point) -> bool {
    &&& origin.x <= pos.x < origin.x + size.width
    &&& origin.y <= pos.y < origin.y + size.height
}

/// Decides [`rect_holds`]. The far corner is formed in 128 bits, which hold
/// the sum of any two coordinates.
fn holds_in_rect(origin: Point, size: Size, pos: Point) -> (holds: bool)
    ensures
        holds == rect_holds(origin, size, pos),
{
    let x: i128 = pos.x as i128;
    let y: i128 = pos.y as i128;
    let x0: i128 = origin.x as i128;
    let y0: i128 = origin.y as i128;
    x0 <= x && x < x0 + size.width as i128 && y0 <= y && y < y0 + size.height as i128
}

impl WidgetState {
    /// Whether `self` is the record of a widget that was just added under the
    /// identifier `id`: it lies at the origin with no extent, every pass is
    /// asked for, and it is neither disabled, hot, focused nor stashed.
    pub open spec fn is_fresh(&self, id: WidgetId, widget_name: &'static str) -> bool {
        &&& self.id == id
        &&& self.size == (Size { width: 0, height: 0 })
        &&& self.origin == (Point { x: 0, y: 0 })
        &&& self.window_origin == (Point { x: 0, y: 0 })
        &&& self.paint_insets == (Insets { x0: 0, y0: 0, x1: 0, y1: 0 })
        &&& self.local_paint_rect == (Rect { x0: 0, y0: 0, x1: 0, y1: 0 })
        &&& self.baseline_offset == 0
        &&& !self.is_portal
        &&& self.clip is None
        &&& self.translation == (Vec2 { x: 0, y: 0 })
        &&& !self.translation_changed
        &&& !self.is_expecting_place_child_call
        &&& self.request_layout
        &&& self.needs_layout
        &&& self.request_compose
        &&& self.needs_compose
        &&& self.request_paint
        &&& self.needs_paint
        &&& self.request_accessibility
        &&& self.needs_accessibility
        &&& self.request_anim
        &&& self.needs_update_disabled
        &&& self.update_focus_chain
        &&& self.focus_chain@ == Seq::<WidgetId>::empty()
        &&& self.children_changed
        &&& self.cursor is None
        &&& self.text_registrations@ == Seq::<TextFieldRegistration>::empty()
        &&& !self.is_explicitly_disabled
        &&& !self.is_disabled
        &&& !self.is_hot
        &&& !self.has_focus
        &&& !self.is_stashed
        &&& !self.needs_visit
        &&& self.widget_name == widget_name
    }

    /// Whether `self` is the record that stands in for a parent of the root
    /// widget: of the given size, asking for layout itself and for nothing
    /// else, so that merging the root into it starts from no pending work.
    pub open spec fn is_synthetic(&self, id: WidgetId, size: Size) -> bool {
        &&& self.id == id
        &&& self.size == size
        &&& self.origin == (Point { x: 0, y: 0 })
        &&& self.window_origin == (Point { x: 0, y: 0 })
        &&& self.paint_insets == (Insets { x0: 0, y0: 0, x1: 0, y1: 0 })
        &&& self.local_paint_rect == (Rect { x0: 0, y0: 0, x1: 0, y1: 0 })
        &&& self.baseline_offset == 0
        &&& !self.is_portal
        &&& self.clip is None
        &&& self.translation == (Vec2 { x: 0, y: 0 })
        &&& !self.translation_changed
        &&& !self.is_expecting_place_child_call
        &&& self.request_layout
        &&& !self.needs_layout
        &&& !self.request_compose
        &&& !self.needs_compose
        &&& !self.request_paint
        &&& !self.needs_paint
        &&& !self.request_accessibility
        &&& !self.needs_accessibility
        &&& !self.request_anim
        &&& !self.needs_update_disabled
        &&& !self.update_focus_chain
        &&& self.focus_chain@ == Seq::<WidgetId>::empty()
        &&& !self.children_changed
        &&& self.cursor is None
        &&& self.text_registrations@ == Seq::<TextFieldRegistration>::empty()
        &&& !self.is_explicitly_disabled
        &&& !self.is_disabled
        &&& !self.is_hot
        &&& !self.has_focus
        &&& !self.is_stashed
        &&& !self.needs_visit
        &&& self.widget_name@ == "<root>"@
    }

    /// Whether each pass that the widget asks for on its own account is also
    /// noted as needed in its subtree. A record that was just made for a
    /// widget has this, and a merge keeps it; the record that stands in for
    /// the root's parent does not, since it asks for layout without needing
    /// any.
    pub open spec fn requests_are_noted(&self) -> bool {
        &&& self.request_layout ==> self.needs_layout
        &&& self.request_compose ==> self.needs_compose
        &&& self.request_paint ==> self.needs_paint
        &&& self.request_accessibility ==> self.needs_accessibility
    }

    /// Whether every coordinate that `self` stores is in range, so that the
    /// rectangles derived from them can be formed.
    pub open spec fn geometry_in_range(&self) -> bool {
        &&& self.size.in_range()
        &&& self.origin.in_range()
        &&& self.window_origin.in_range()
        &&& self.paint_insets.in_range()
        &&& self.local_paint_rect.in_range()
        &&& self.translation.in_range()
        &&& self.clip matches Some(clip) ==> clip.in_range()
    }

    /// Whether `self` and `other` agree in every field that neither a merge
    /// nor the mark of a visit touches.
    pub open spec fn same_settled_fields(&self, other: &WidgetState) -> bool {
        &&& self.id == other.id
        &&& self.size == other.size
        &&& self.origin == other.origin
        &&& self.window_origin == other.window_origin
        &&& self.paint_insets == other.paint_insets
        &&& self.local_paint_rect == other.local_paint_rect
        &&& self.baseline_offset == other.baseline_offset
        &&& self.is_portal == other.is_portal
        &&& self.clip == other.clip
        &&& self.translation == other.translation
        &&& self.translation_changed == other.translation_changed
        &&& self.is_expecting_place_child_call == other.is_expecting_place_child_call
        &&& self.request_layout == other.request_layout
        &&& self.request_compose == other.request_compose
        &&& self.request_paint == other.request_paint
        &&& self.request_accessibility == other.request_accessibility
        &&& self.focus_chain@ == other.focus_chain@
        &&& self.cursor == other.cursor
        &&& self.is_explicitly_disabled == other.is_explicitly_disabled
        &&& self.is_disabled == other.is_disabled
        &&& self.is_hot == other.is_hot
        &&& self.is_stashed == other.is_stashed
        &&& self.widget_name == other.widget_name
    }

    /// Whether `self` and `other` agree in every field that a merge leaves
    /// alone in the parent and in the child.
    pub open spec fn same_outside_merge(&self, other: &WidgetState) -> bool {
        &&& self.same_settled_fields(other)
        &&& self.needs_visit == other.needs_visit
    }

    /// Whether `self` and `other` agree in every flag that a merge hands from
    /// the child to the parent.
    pub open spec fn same_merged_flags(&self, other: &WidgetState) -> bool {
        &&& self.needs_layout == other.needs_layout
        &&& self.needs_compose == other.needs_compose
        &&& self.needs_paint == other.needs_paint
        &&& self.needs_accessibility == other.needs_accessibility
        &&& self.request_anim == other.request_anim
        &&& self.needs_update_disabled == other.needs_update_disabled
        &&& self.has_focus == other.has_focus
        &&& self.children_changed == other.children_changed
        &&& self.update_focus_chain == other.update_focus_chain
    }

    /// Whether `self` and `other` say the same: every field is equal, the two
    /// lists taken by what they hold.
    pub open spec fn same_as(&self, other: &WidgetState) -> bool {
        &&& self.same_outside_merge(other)
        &&& self.same_merged_flags(other)
        &&& self.text_registrations@ == other.text_registrations@
    }

    /// Whether `parent_after` and `child_after` are what a merge makes of
    /// `parent` and `child`.
    ///
    /// In the parent, each flag that speaks of the whole subtree is the
    /// disjunction of what parent and child had, and the child's text
    /// registrations stand behind the parent's own. The child has lost its
    /// text registrations. Nothing else differs.
    pub open spec fn merges_to(
        parent: WidgetState,
        child: WidgetState,
        parent_after: WidgetState,
        child_after: WidgetState,
    ) -> bool {
        &&& parent_after.needs_layout == (parent.needs_layout || child.needs_layout)
        &&& parent_after.needs_compose == (parent.needs_compose || child.needs_compose)
        &&& parent_after.needs_paint == (parent.needs_paint || child.needs_paint)
        &&& parent_after.needs_accessibility == (parent.needs_accessibility
            || child.needs_accessibility)
        &&& parent_after.request_anim == (parent.request_anim || child.request_anim)
        &&& parent_after.needs_update_disabled == (parent.needs_update_disabled
            || child.needs_update_disabled)
        &&& parent_after.has_focus == (parent.has_focus || child.has_focus)
        &&& parent_after.children_changed == (parent.children_changed || child.children_changed)
        &&& parent_after.update_focus_chain == (parent.update_focus_chain
            || child.update_focus_chain)
        &&& parent_after.text_registrations@ == parent.text_registrations@
            + child.text_registrations@
        &&& parent_after.same_outside_merge(&parent)
        &&& child_after.text_registrations@ == Seq::<TextFieldRegistration>::empty()
        &&& child_after.same_merged_flags(&child)
        &&& child_after.same_outside_merge(&child)
    }

    /// The rectangle that the widget paints in, in its parent's coordinate
    /// space: the local paint rectangle moved to the widget's origin.
    pub open spec fn spec_paint_rect(&self) -> Rect {
        self.local_paint_rect.spec_translate(self.origin.spec_to_vec2())
    }

    /// The rectangle that layout gave the widget, in its parent's coordinate
    /// space.
    pub open spec fn spec_layout_rect(&self) -> Rect {
        Rect::spec_from_origin_size(self.origin, self.size)
    }

    /// The layout rectangle in the window's coordinate space.
    pub open spec fn spec_window_layout_rect(&self) -> Rect {
        Rect::spec_from_origin_size(self.window_origin, self.size)
    }

    /// Whether the layout rectangle holds `pos`, a position in the parent's
    /// coordinate space. The far corner is taken as the whole number it is,
    /// however large, so that this is defined for every record.
    pub open spec fn spec_layout_holds(&self, pos: Point) -> bool {
        rect_holds(self.origin, self.size, pos)
    }

    /// Whether the layout rectangle in the window holds `pos`, a position in
    /// the window's coordinate space.
    pub open spec fn spec_window_layout_holds(&self, pos: Point) -> bool {
        rect_holds(self.window_origin, self.size, pos)
    }

    /// Whether the clip lets `pos`, a position in the window's coordinate
    /// space, through: the widget does not clip, or its clip holds the
    /// position taken relative to the widget's origin in the window.
    pub open spec fn spec_clip_admits(&self, pos: Point) -> bool {
        match self.clip {
            Some(clip) => {
                &&& clip.x0 <= pos.x - self.window_origin.x < clip.x1
                &&& clip.y0 <= pos.y - self.window_origin.y < clip.y1
            },
            None => true,
        }
    }

    /// The record of a widget that was just added to the tree.
    pub fn new(id: WidgetId, widget_name: &'static str) -> (state: WidgetState)
        ensures
            state.is_fresh(id, widget_name),
            state.requests_are_noted(),
            state.geometry_in_range(),
    {
        WidgetState {
            id,
            origin: Point::origin(),
            window_origin: Point::origin(),
            size: Size::zero(),
            is_expecting_place_child_call: false,
            paint_insets: Insets::zero(),
            local_paint_rect: Rect::zero(),
            is_portal: false,
            clip: None,
            translation: Vec2::zero(),
            translation_changed: false,
            is_explicitly_disabled: false,
            is_disabled: false,
            baseline_offset: 0,
            is_hot: false,
            request_layout: true,
            needs_layout: true,
            request_compose: true,
            needs_compose: true,
            request_paint: true,
            needs_paint: true,
            request_accessibility: true,
            needs_accessibility: true,
            has_focus: false,
            request_anim: true,
            needs_update_disabled: true,
            focus_chain: Vec::new(),
            children_changed: true,
            cursor: None,
            text_registrations: Vec::new(),
            update_focus_chain: true,
            is_stashed: false,
            needs_visit: false,
            widget_name,
        }
    }

    /// A record to stand in for the parent that the root widget lacks, so
    /// that a pass can merge the root's record into something.
    pub fn synthetic(id: WidgetId, size: Size) -> (state: WidgetState)
        ensures
            state.is_synthetic(id, size),
    {
        WidgetState {
            size,
            needs_layout: false,
            request_compose: false,
            needs_compose: false,
            needs_paint: false,
            request_paint: false,
            request_accessibility: false,
            needs_accessibility: false,
            request_anim: false,
            needs_update_disabled: false,
            children_changed: false,
            update_focus_chain: false,
            ..WidgetState::new(id, "<root>")
        }
    }

    /// Notes whether the running pass has come to this widget. Nothing but
    /// the mark changes.
    pub fn mark_as_visited(&mut self, visited: bool)
        ensures
            final(self).needs_visit == !visited,
            final(self).same_settled_fields(old(self)),
            final(self).same_merged_flags(old(self)),
            final(self).text_registrations@ == old(self).text_registrations@,
    {
        self.needs_visit = !visited;
    }

    /// Whether the running pass has yet to come to this widget.
    pub fn needs_visit(&self) -> (pending: bool)
        ensures
            pending == self.needs_visit,
    {
        self.needs_visit
    }

    /// Takes into `self`, the parent's record, what the child's record says
    /// of its subtree, and takes the child's text registrations away from it.
    ///
    /// A second call with the same child changes nothing more.
    pub fn merge_up(&mut self, child_state: &mut WidgetState)
        ensures
            WidgetState::merges_to(
                *old(self),
                *old(child_state),
                *final(self),
                *final(child_state),
            ),
    {
        // The record is written back in one piece: one assignment of the
        // whole record is far cheaper to verify than ten of single fields.
        let mut focus_chain: Vec<WidgetId> = Vec::new();
        core::mem::swap(&mut focus_chain, &mut self.focus_chain);
        let mut text_registrations: Vec<TextFieldRegistration> = Vec::new();
        core::mem::swap(&mut text_registrations, &mut self.text_registrations);
        text_registrations.append(&mut child_state.text_registrations);
        *self = WidgetState {
            needs_layout: self.needs_layout || child_state.needs_layout,
            needs_compose: self.needs_compose || child_state.needs_compose,
            needs_paint: self.needs_paint || child_state.needs_paint,
            request_anim: self.request_anim || child_state.request_anim,
            needs_accessibility: self.needs_accessibility || child_state.needs_accessibility,
            needs_update_disabled: self.needs_update_disabled || child_state.needs_update_disabled,
            has_focus: self.has_focus || child_state.has_focus,
            children_changed: self.children_changed || child_state.children_changed,
            update_focus_chain: self.update_focus_chain || child_state.update_focus_chain,
            focus_chain,
            text_registrations,
            ..*self
        };
    }

    pub fn size(&self) -> (size: Size)
        ensures
            size == self.size,
    {
        self.size
    }

    /// The rectangle that the widget paints in, in its parent's coordinate
    /// space.
    pub fn paint_rect(&self) -> (rect: Rect)
        requires
            self.local_paint_rect.in_range(),
            self.origin.in_range(),
        ensures
            rect == self.spec_paint_rect(),
    {
        self.local_paint_rect.translate(self.origin.to_vec2())
    }

    /// The rectangle that layout gave the widget, in its parent's coordinate
    /// space.
    pub fn layout_rect(&self) -> (rect: Rect)
        requires
            self.origin.in_range(),
            self.size.in_range(),
        ensures
            rect == self.spec_layout_rect(),
    {
        Rect::from_origin_size(self.origin, self.size)
    }

    /// The layout rectangle in the window's coordinate space. It need not lie
    /// in the visible part of the window.
    pub fn window_layout_rect(&self) -> (rect: Rect)
        requires
            self.window_origin.in_range(),
            self.size.in_range(),
        ensures
            rect == self.spec_window_layout_rect(),
    {
        Rect::from_origin_size(self.window_origin(), self.size)
    }

    /// Whether the layout rectangle holds `pos`, a position in the parent's
    /// coordinate space. Where origin and size are in range, that is whether
    /// [`WidgetState::layout_rect`] contains `pos`.
    #[verifier::when_used_as_spec(spec_layout_holds)]
    pub fn layout_holds(&self, pos: Point) -> (holds: bool)
        ensures
            holds == self.spec_layout_holds(pos),
            self.origin.in_range() && self.size.in_range() ==> holds
                == self.spec_layout_rect().spec_contains(pos),
    {
        holds_in_rect(self.origin, self.size, pos)
    }

    /// Whether the layout rectangle in the window holds `pos`, a position in
    /// the window's coordinate space. Where the origin in the window and the
    /// size are in range, that is whether
    /// [`WidgetState::window_layout_rect`] contains `pos`.
    #[verifier::when_used_as_spec(spec_window_layout_holds)]
    pub fn window_layout_holds(&self, pos: Point) -> (holds: bool)
        ensures
            holds == self.spec_window_layout_holds(pos),
            self.window_origin.in_range() && self.size.in_range() ==> holds
                == self.spec_window_layout_rect().spec_contains(pos),
    {
        holds_in_rect(self.window_origin, self.size, pos)
    }

    /// Whether the clip lets `pos`, a position in the window's coordinate
    /// space, through. Where `pos` and the origin in the window are in range,
    /// that is whether the widget does not clip or its clip contains the
    /// difference of the two.
    #[verifier::when_used_as_spec(spec_clip_admits)]
    pub fn clip_admits(&self, pos: Point) -> (admits: bool)
        ensures
            admits == self.spec_clip_admits(pos),
            pos.in_range() && self.window_origin.in_range() ==> admits == (match self.clip {
                Some(clip) => clip.spec_contains(
                    pos.spec_to_vec2().spec_minus(
                        self.window_origin.spec_to_vec2(),
                    ).spec_to_point(),
                ),
                None => true,
            }),
    {
        match self.clip {
            Some(clip) => {
                let x: i128 = pos.x as i128 - self.window_origin.x as i128;
                let y: i128 = pos.y as i128 - self.window_origin.y as i128;
                clip.x0 as i128 <= x && x < clip.x1 as i128 && clip.y0 as i128 <= y && y
                    < clip.y1 as i128
            },
            None => true,
        }
    }

    pub fn window_origin(&self) -> (origin: Point)
        ensures
            origin == self.window_origin,
    {
        self.window_origin
    }

    /// Decides [`WidgetState::geometry_in_range`].
    pub fn is_geometry_in_range(&self) -> (ok: bool)
        ensures
            ok == self.geometry_in_range(),
    {
        let clip_ok = match self.clip {
            Some(clip) => clip.is_in_range(),
            None => true,
        };
        self.size.is_in_range() && self.origin.is_in_range() && self.window_origin.is_in_range()
            && self.paint_insets.is_in_range() && self.local_paint_rect.is_in_range()
            && self.translation.is_in_range() && clip_ok
    }
}

/// Merging a child into its parent a second time changes neither record: the
/// first merge has emptied the child's text registrations, and a flag that is
/// already a disjunction with the child's flag stays what it is.
pub proof fn lemma_merge_up_idempotent(
    parent: WidgetState,
    child: WidgetState,
    parent_once: WidgetState,
    child_once: WidgetState,
    parent_twice: WidgetState,
    child_twice: WidgetState,
)
    requires
        WidgetState::merges_to(parent, child, parent_once, child_once),
        WidgetState::merges_to(parent_once, child_once, parent_twice, child_twice),
    ensures
        parent_twice.same_as(&parent_once),
        child_twice.same_as(&child_once),
{
    assert(parent_twice.text_registrations@ =~= parent_once.text_registrations@);
}

/// A merge never clears a flag of the parent: each flag that speaks of the
/// subtree is set afterwards exactly if the parent or the child had it set.
pub proof fn lemma_merge_up_monotone(
    parent: WidgetState,
    child: WidgetState,
    parent_after: WidgetState,
    child_after: WidgetState,
)
    requires
        WidgetState::merges_to(parent, child, parent_after, child_after),
    ensures
        parent_after.needs_layout == (parent.needs_layout || child.needs_layout),
        parent_after.needs_compose == (parent.needs_compose || child.needs_compose),
        parent_after.needs_paint == (parent.needs_paint || child.needs_paint),
        parent_after.needs_accessibility == (parent.needs_accessibility
            || child.needs_accessibility),
        parent_after.request_anim == (parent.request_anim || child.request_anim),
        parent_after.needs_update_disabled == (parent.needs_update_disabled
            || child.needs_update_disabled),
        parent_after.has_focus == (parent.has_focus || child.has_focus),
        parent_after.children_changed == (parent.children_changed || child.children_changed),
        parent_after.update_focus_chain == (parent.update_focus_chain
            || child.update_focus_chain),
        parent_after.request_layout == parent.request_layout,
        parent_after.request_compose == parent.request_compose,
        parent_after.request_paint == parent.request_paint,
        parent_after.request_accessibility == parent.request_accessibility,
        parent.requests_are_noted() ==> parent_after.requests_are_noted(),
        child.requests_are_noted() ==> child_after.requests_are_noted(),
{
}

/// The layout rectangle starts at the widget's origin and has the widget's
/// size; the rectangle in window space starts at the window origin and has
/// the same size; the paint rectangle is the local one moved to the origin.
pub proof fn lemma_rects_follow_stored_fields(state: WidgetState)
    requires
        state.geometry_in_range(),
    ensures
        state.spec_layout_rect().spec_origin() == state.origin,
        state.spec_layout_rect().spec_size() == state.size,
        state.spec_window_layout_rect().spec_origin() == state.window_origin,
        state.spec_window_layout_rect().spec_size() == state.size,
        state.spec_paint_rect().x0 == state.local_paint_rect.x0 + state.origin.x,
        state.spec_paint_rect().y0 == state.local_paint_rect.y0 + state.origin.y,
        state.spec_paint_rect().x1 == state.local_paint_rect.x1 + state.origin.x,
        state.spec_paint_rect().y1 == state.local_paint_rect.y1 + state.origin.y,
{
}

} // verus!
