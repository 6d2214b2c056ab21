//! `Separator`: a hairline divider between content regions.

use vstd::prelude::*;

use crate::access::{AccessNode, Role};
use crate::widgets::segmented::FlexDirection;

verus! {

/// A hairline divider: a horizontal line across a row, a vertical one
/// down a column.
#[derive(Clone, Copy, Debug)]
pub struct Separator {
    /// The axis the line runs along.
    pub direction: FlexDirection,
}

impl Separator {
    /// A horizontal divider.
    pub fn horizontal() -> (s: Separator)
        ensures
            s.direction == FlexDirection::Row,
    {
        Separator { direction: FlexDirection::Row }
    }

    /// A vertical divider.
    pub fn vertical() -> (s: Separator)
        ensures
            s.direction == FlexDirection::Column,
    {
        Separator { direction: FlexDirection::Column }
    }

    /// The accessibility node: a generic container.
    pub fn accessibility(&self) -> (n: AccessNode)
        ensures
            n == AccessNode::blank(Role::GenericContainer),
    {
        AccessNode::new(Role::GenericContainer)
    }
}

} // verus!
