//! `Stack`: overlays its children in one cell, each placed by the
//! stack's alignment.

use vstd::prelude::*;

verus! {

/// Where a stack places each child inside its bounds.
#[derive(Clone, Copy, Debug, PartialEq, Eq, Hash, Structural)]
pub enum StackAlignment {
    /// Top leading corner.
    TopStart,
    /// Top trailing corner.
    TopEnd,
    /// Bottom leading corner.
    BottomStart,
    /// Bottom trailing corner.
    BottomEnd,
    /// Centred on both axes.
    Center,
    /// Stretched over the full bounds.
    Stretch,
}

impl Default for StackAlignment {
    fn default() -> (r: StackAlignment)
        ensures
            r == StackAlignment::TopStart,
    {
        StackAlignment::TopStart
    }
}

} // verus!
