//! `Ruler`: a measuring scale with major and minor ticks that picks a
//! value by press or drag.
//!
//! The scale's range and the value under the pointer are real numbers
//! kept by the caller; this module decides what each input asks of
//! them. A primary press on the ruler picks the value under it and
//! grabs the pointer; while grabbed, moves keep picking; a primary
//! release lets go.

use vstd::prelude::*;

use crate::event::{EventResponse, PointerButton};

verus! {

/// The axis a ruler measures along.
#[derive(Clone, Copy, Debug, PartialEq, Eq, Hash, Structural)]
pub enum RulerOrientation {
    /// Measures along x.
    Horizontal,
    /// Measures along y.
    Vertical,
}

/// The input state of a ruler: whether the pointer holds it.
#[derive(Debug)]
pub struct RulerInput {
    dragging: bool,
}

impl View for RulerInput {
    type V = bool;

    closed spec fn view(&self) -> bool {
        self.dragging
    }
}

impl RulerInput {
    /// An idle ruler input.
    pub fn new() -> (s: RulerInput)
        ensures
            !s@,
    {
        RulerInput { dragging: false }
    }

    /// Whether the pointer holds the ruler.
    pub fn is_dragging(&self) -> (r: bool)
        ensures
            r == self@,
    {
        self.dragging
    }

    /// A pointer press (`inside`: on the ruler). A primary press on the
    /// ruler grabs it; the answer says whether to pick the value under
    /// the pointer.
    pub fn pointer_pressed(&mut self, button: PointerButton, inside: bool) -> (r: (
        bool,
        EventResponse,
    ))
        ensures
            button == PointerButton::Primary && inside ==> r == (true, EventResponse::CapturePointer)
                && final(self)@,
            !(button == PointerButton::Primary && inside) ==> r == (false, EventResponse::Ignored)
                && final(self)@ == old(self)@,
    {
        if button == PointerButton::Primary && inside {
            self.dragging = true;
            (true, EventResponse::CapturePointer)
        } else {
            (false, EventResponse::Ignored)
        }
    }

    /// The pointer moved: a held ruler picks the value under it.
    pub fn pointer_moved(&self) -> (r: (bool, EventResponse))
        ensures
            r == if self@ {
                (true, EventResponse::RequestRepaint)
            } else {
                (false, EventResponse::Ignored)
            },
    {
        if self.dragging {
            (true, EventResponse::RequestRepaint)
        } else {
            (false, EventResponse::Ignored)
        }
    }

    /// A pointer release: a primary release lets a held ruler go.
    pub fn pointer_released(&mut self, button: PointerButton) -> (r: EventResponse)
        ensures
            button == PointerButton::Primary && old(self)@ ==> r == EventResponse::Handled
                && !final(self)@,
            !(button == PointerButton::Primary && old(self)@) ==> r == EventResponse::Ignored
                && final(self)@ == old(self)@,
    {
        if button == PointerButton::Primary && self.dragging {
            self.dragging = false;
            EventResponse::Handled
        } else {
            EventResponse::Ignored
        }
    }
}

} // verus!
