//! The retained widget tree of a user-interface toolkit: the state record
//! kept beside every widget, the way invalidation flags travel from a child
//! to its parent, and a read-only reference into the tree for lookups by id,
//! hit-testing and invariant checks.
//!
//! - [`widget_state`] holds the state record and [`WidgetState::merge_up`],
//!   by which a pass hands a child's pending work on to its parent.
//! - [`widget`] holds what the tree reads of a widget itself.
//! - [`tree_arena`] is the storage: nodes that own their children, found by
//!   their raw identifier.
//! - [`widget_ref`] is the reference to one widget: its state, its widget,
//!   and its children. [`walk`] orders the widgets below a reference
//!   depth-first; [`find`], [`hit_test`], [`validate`] and [`debug_text`] are
//!   the searches and checks built on that.
//! - [`child_refs`] is the list that a reference hands its children out in.
//! - [`geometry`] holds points and rectangles on whole coordinates, and
//!   [`search`] the first place in a sequence at which something holds.
//!
//! - [`cursor_icon`] names the pointer shapes that a state record can hold.
//!
//! Every function here is verified against its contract, but for four: the
//! functions at the end of [`child_refs`] say what the calls into `SmallVec`
//! do, and Verus believes them without looking at the calls.
//!
//! Each traversal comes in two forms. The one whose name begins with `try_`
//! takes a tree as it is and fails at the first widget on its way that is
//! out of order. The other asks that the tree is in order
//! ([`WidgetRef::well_formed`], which [`WidgetRef::is_well_formed`] decides)
//! and has no failure to return.

pub mod child_refs;
pub mod cursor_icon;
pub mod debug_text;
pub mod find;
pub mod geometry;
pub mod search;
pub mod tree_arena;
pub mod validate;
pub mod walk;
pub mod widget;
pub mod widget_id;
pub mod widget_ref;
pub mod widget_state;

pub use crate::child_refs::ChildRefs;
pub use crate::cursor_icon::CursorIcon;
pub use crate::geometry::{Insets, Point, Rect, Size, Vec2};
pub use crate::tree_arena::{ArenaRef, ArenaRefChildren, TreeNode};
pub use crate::validate::{ChildrenFault, InvalidWidget, ValidationError};
pub use crate::widget::Widget;
pub use crate::widget_id::WidgetId;
pub use crate::widget_ref::WidgetRef;
pub use crate::widget_state::{TextFieldRegistration, WidgetState};
