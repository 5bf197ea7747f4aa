//! Status for widget events.
use vstd::prelude::*;

verus! {

/// The status of a tab (e.g. for styling).
///
/// Tab bar styling uses `Active`, `Hovered`, `Inactive`, and `Dragging`.
#[derive(Debug, Clone, Copy, PartialEq, Eq, Structural)]
pub enum Status {
    /// Currently selected tab
    Active,
    /// Currently not selected tab
    Inactive,
    /// Can be pressed and it is being hovered.
    Hovered,
    /// The tab is currently being dragged.
    Dragging,
}

} // verus!
