//! Identifiers of widget nodes.

use vstd::prelude::*;

verus! {

/// Identifier of one widget node of the retained tree.
///
/// Identifiers are issued in increasing order and never issued twice, so an
/// identifier that has left the tree never names a later widget.
#[derive(Clone, Copy, PartialEq, Eq, Structural, Hash, Debug)]
pub struct WidgetId(pub u64);

impl WidgetId {
    /// The number behind the identifier.
    pub fn to_raw(self) -> (raw: u64)
        ensures
            raw == self.0,
    {
        self.0
    }
}

} // verus!
