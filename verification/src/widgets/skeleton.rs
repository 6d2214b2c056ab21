//! `Skeleton`: a loading placeholder — a block, a circle or a paragraph
//! of text lines — that shimmers until loading clears. The shimmer band
//! sweeps once per [`SWEEP_NS`] nanoseconds on `tick`.

use vstd::prelude::*;

use crate::access::{AccessNode, Role};
use crate::text::owned;

verus! {

/// Nanoseconds per shimmer sweep.
pub const SWEEP_NS: u64 = 1_400_000_000;

/// Which placeholder geometry a skeleton paints while loading.
#[derive(Clone, Copy, Debug, PartialEq, Eq, Structural)]
pub enum SkeletonShape {
    /// A single rounded block filling the bounds.
    Block,
    /// A circle centred in the bounds.
    Circle,
    /// A paragraph of `n` text lines, the last one shorter.
    Lines(usize),
}

/// The state of a placeholder.
pub struct SkeletonView {
    pub shape: SkeletonShape,
    pub loading: bool,
    pub animated: bool,
    /// Position of the shimmer band in its sweep, in nanoseconds.
    pub phase: u64,
}

/// A loading placeholder.
#[derive(Debug)]
pub struct Skeleton {
    shape: SkeletonShape,
    loading: bool,
    animated: bool,
    phase: u64,
}

impl View for Skeleton {
    type V = SkeletonView;

    closed spec fn view(&self) -> SkeletonView {
        SkeletonView { shape: self.shape, loading: self.loading, animated: self.animated, phase: self.phase }
    }
}

impl Skeleton {
    /// A loading, animated placeholder of `shape`.
    fn with_shape(shape: SkeletonShape) -> (s: Skeleton)
        ensures
            s@ == (SkeletonView { shape, loading: true, animated: true, phase: 0 }),
    {
        Skeleton { shape, loading: true, animated: true, phase: 0 }
    }

    /// A block placeholder.
    pub fn block() -> (s: Skeleton)
        ensures
            s@ == (SkeletonView { shape: SkeletonShape::Block, loading: true, animated: true, phase: 0 }),
    {
        Self::with_shape(SkeletonShape::Block)
    }

    /// A circular placeholder.
    pub fn circle() -> (s: Skeleton)
        ensures
            s@ == (SkeletonView { shape: SkeletonShape::Circle, loading: true, animated: true, phase: 0 }),
    {
        Self::with_shape(SkeletonShape::Circle)
    }

    /// A paragraph placeholder of `n` lines (at least one).
    pub fn lines(n: usize) -> (s: Skeleton)
        ensures
            s@ == (SkeletonView {
                shape: SkeletonShape::Lines(if n > 1 { n } else { 1 }),
                loading: true,
                animated: true,
                phase: 0,
            }),
    {
        Self::with_shape(SkeletonShape::Lines(if n > 1 { n } else { 1 }))
    }

    /// The placeholder geometry.
    pub fn shape(&self) -> (r: SkeletonShape)
        ensures
            r == self@.shape,
    {
        self.shape
    }

    /// Enables or disables the shimmer.
    pub fn animated(self, animated: bool) -> (s: Skeleton)
        ensures
            s@ == (SkeletonView { animated, ..self@ }),
    {
        let mut s = self;
        s.animated = animated;
        s
    }

    /// Sets the loading flag.
    pub fn set_loading(&mut self, loading: bool)
        ensures
            final(self)@ == (SkeletonView { loading, ..old(self)@ }),
    {
        self.loading = loading;
    }

    /// Whether the placeholder shows.
    pub fn is_loading(&self) -> (r: bool)
        ensures
            r == self@.loading,
    {
        self.loading
    }

    /// Advances the shimmer by `dt_ns` nanoseconds while loading and
    /// animated; returns whether it needs frames.
    pub fn tick(&mut self, dt_ns: u64) -> (r: bool)
        ensures
            r == (old(self)@.loading && old(self)@.animated),
            r ==> final(self)@ == (SkeletonView {
                phase: ((old(self)@.phase + dt_ns) % (SWEEP_NS as int)) as u64,
                ..old(self)@
            }),
            !r ==> final(self)@ == old(self)@,
    {
        if self.loading && self.animated {
            self.phase = ((self.phase as u128 + dt_ns as u128) % (SWEEP_NS as u128)) as u64;
            true
        } else {
            false
        }
    }

    /// The accessibility node: a container, labelled "Loading" and
    /// busy while loading.
    pub fn accessibility(&self) -> (n: AccessNode)
        ensures
            self@.loading ==> n == (AccessNode {
                label: n.label,
                busy: true,
                ..AccessNode::blank(Role::GenericContainer)
            }) && n.label is Some && n.label.unwrap()@ == "Loading"@,
            !self@.loading ==> n == AccessNode::blank(Role::GenericContainer),
    {
        let mut node = AccessNode::new(Role::GenericContainer);
        if self.loading {
            node.label = Some(owned("Loading"));
            node.busy = true;
        }
        node
    }
}

} // verus!
