//! `RubberBand`: a marquee selection drawn by dragging.
//!
//! Positions and the selected rectangle are real numbers kept by the
//! caller; this module keeps the selection gesture. A primary press
//! anchors a band and asks for focus; while anchored, moves stretch the
//! band; a primary release ends it, and the caller parks the band as a
//! selection when it is large enough. Leaving the widget mid-drag
//! repaints; cancelling drops the band.

use vstd::prelude::*;

use crate::access::{AccessNode, Role};
use crate::event::{EventResponse, PointerButton};
use crate::text::owned;

verus! {

/// What an input asks of the band.
#[derive(Clone, Copy, Debug, PartialEq, Eq, Structural)]
pub enum BandCommand {
    /// Leave the band alone.
    Nothing,
    /// Anchor a new band at the pointer.
    Anchor,
    /// Stretch the band to the pointer.
    Stretch,
    /// End the band at the pointer; park it if large enough.
    Finish,
}

/// The state of a marquee.
pub struct RubberBandView {
    pub label: Seq<char>,
    pub anchored: bool,
}

/// A marquee selection gesture.
#[derive(Debug)]
pub struct RubberBand {
    /// Accessibility label.
    pub label: String,
    anchored: bool,
}

impl View for RubberBand {
    type V = RubberBandView;

    closed spec fn view(&self) -> RubberBandView {
        RubberBandView { label: self.label@, anchored: self.anchored }
    }
}

impl RubberBand {
    /// An idle marquee labelled "Marquee selection".
    pub fn new() -> (b: RubberBand)
        ensures
            b@ == (RubberBandView { label: "Marquee selection"@, anchored: false }),
    {
        RubberBand { label: owned("Marquee selection"), anchored: false }
    }

    /// Sets the accessibility label.
    pub fn label(self, label: &str) -> (b: RubberBand)
        ensures
            b@ == (RubberBandView { label: label@, ..self@ }),
    {
        let mut b = self;
        b.label = owned(label);
        b
    }

    /// Whether a band is being drawn.
    pub fn is_dragging(&self) -> (r: bool)
        ensures
            r == self@.anchored,
    {
        self.anchored
    }

    /// Drops the band being drawn.
    pub fn cancel(&mut self)
        ensures
            final(self)@ == (RubberBandView { anchored: false, ..old(self)@ }),
    {
        self.anchored = false;
    }

    /// A pointer press: a primary press anchors a band (replacing any)
    /// and asks for focus.
    pub fn pointer_pressed(&mut self, button: PointerButton) -> (r: (BandCommand, EventResponse))
        ensures
            button == PointerButton::Primary ==> r == (
                BandCommand::Anchor,
                EventResponse::CaptureFocus,
            ) && final(self)@ == (RubberBandView { anchored: true, ..old(self)@ }),
            button != PointerButton::Primary ==> r == (BandCommand::Nothing, EventResponse::Ignored)
                && final(self)@ == old(self)@,
    {
        if button == PointerButton::Primary {
            self.anchored = true;
            (BandCommand::Anchor, EventResponse::CaptureFocus)
        } else {
            (BandCommand::Nothing, EventResponse::Ignored)
        }
    }

    /// The pointer moved: an anchored band stretches to it.
    pub fn pointer_moved(&self) -> (r: (BandCommand, EventResponse))
        ensures
            r == if self@.anchored {
                (BandCommand::Stretch, EventResponse::RequestRepaint)
            } else {
                (BandCommand::Nothing, EventResponse::Ignored)
            },
    {
        if self.anchored {
            (BandCommand::Stretch, EventResponse::RequestRepaint)
        } else {
            (BandCommand::Nothing, EventResponse::Ignored)
        }
    }

    /// A pointer release: a primary release ends an anchored band.
    pub fn pointer_released(&mut self, button: PointerButton) -> (r: (BandCommand, EventResponse))
        ensures
            button == PointerButton::Primary && old(self)@.anchored ==> r == (
                BandCommand::Finish,
                EventResponse::RequestRepaint,
            ) && final(self)@ == (RubberBandView { anchored: false, ..old(self)@ }),
            !(button == PointerButton::Primary && old(self)@.anchored) ==> r == (
                BandCommand::Nothing,
                EventResponse::Ignored,
            ) && final(self)@ == old(self)@,
    {
        if button == PointerButton::Primary && self.anchored {
            self.anchored = false;
            (BandCommand::Finish, EventResponse::RequestRepaint)
        } else {
            (BandCommand::Nothing, EventResponse::Ignored)
        }
    }

    /// The pointer left: a band being drawn repaints.
    pub fn pointer_leave(&self) -> (r: EventResponse)
        ensures
            r == if self@.anchored {
                EventResponse::RequestRepaint
            } else {
                EventResponse::Ignored
            },
    {
        if self.anchored {
            EventResponse::RequestRepaint
        } else {
            EventResponse::Ignored
        }
    }

    /// The accessibility node: a group labelled by the label, valued
    /// "selecting" while a band is drawn and "idle" otherwise.
    pub fn accessibility(&self) -> (n: AccessNode)
        ensures
            n == (AccessNode { label: n.label, value: n.value, ..AccessNode::blank(Role::Group) }),
            n.label is Some && n.label.unwrap()@ == self@.label,
            n.value is Some && n.value.unwrap()@ == if self@.anchored {
                "selecting"@
            } else {
                "idle"@
            },
    {
        let mut node = AccessNode::new(Role::Group);
        node.label = Some(self.label.clone());
        node.value = Some(
            if self.anchored {
                owned("selecting")
            } else {
                owned("idle")
            },
        );
        node
    }
}

impl Default for RubberBand {
    fn default() -> (b: RubberBand)
        ensures
            b@ == (RubberBandView { label: "Marquee selection"@, anchored: false }),
    {
        RubberBand::new()
    }
}

} // verus!
