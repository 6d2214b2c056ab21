//! `Ribbon`: a diagonal corner band laid over a child widget.

use vstd::prelude::*;

verus! {

/// Which corner of the child the ribbon crosses.
#[derive(Clone, Copy, Debug, PartialEq, Eq, Hash, Structural)]
pub enum RibbonCorner {
    /// The ribbon crosses the top trailing corner.
    TopEnd,
    /// The ribbon crosses the top leading corner.
    TopStart,
}

impl Default for RibbonCorner {
    fn default() -> (r: RibbonCorner)
        ensures
            r == RibbonCorner::TopEnd,
    {
        RibbonCorner::TopEnd
    }
}

} // verus!
