//! `Sparkline`: a word-sized trend chart.

use vstd::prelude::*;

verus! {

/// How a sparkline draws its series.
#[derive(Clone, Copy, Debug, PartialEq, Eq, Hash, Structural)]
pub enum SparkStyle {
    /// A polyline.
    Line,
    /// A polyline with the area under it filled.
    Area,
    /// One bar per sample.
    Bars,
}

impl Default for SparkStyle {
    fn default() -> (r: SparkStyle)
        ensures
            r == SparkStyle::Line,
    {
        SparkStyle::Line
    }
}

} // verus!
