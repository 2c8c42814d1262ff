//! Identifiers of widgets.

use vstd::prelude::*;

verus! {

/// The identity of one widget. It stays the same for as long as the widget is
/// in the tree, and the tree's storage is keyed by its raw number.
#[derive(Clone, Copy, Debug, PartialEq, Eq, Hash, Structural)]
pub struct WidgetId {
    pub raw: u64,
}

impl WidgetId {
    /// The raw number of `self`.
    pub open spec fn spec_to_raw(self) -> u64 {
        self.raw
    }

    /// The identifier with the raw number `raw`.
    pub fn new(raw: u64) -> (id: WidgetId)
        ensures
            id.raw == raw,
    {
        WidgetId { raw }
    }

    /// The raw number of `self`.
    #[verifier::when_used_as_spec(spec_to_raw)]
    pub fn to_raw(self) -> (raw: u64)
        ensures
            raw == self.raw,
    {
        self.raw
    }
}

} // verus!
