//! `Slider`: picks a value from a range along a track.
//!
//! The value itself, its range, its step and the geometry of the track
//! are real numbers kept by the caller; this module decides what each
//! input asks of them. A primary press on the track jumps the value to
//! the press point and grabs the pointer; while grabbed, moves follow
//! the pointer and the release lands the value and lets go. Arrow keys
//! step (right and up increase), page keys jump by the page step, and
//! `Home`/`End` go to the range ends. A disabled slider ignores all
//! input.

use vstd::prelude::*;

use crate::event::{key_of, EventResponse, Key, PointerButton, SemanticAction};

verus! {

/// The axis a slider's track runs along.
#[derive(Clone, Copy, Debug, PartialEq, Eq, Hash, Structural)]
pub enum SliderOrientation {
    /// Left to right, minimum at the left.
    Horizontal,
    /// Bottom to top, minimum at the bottom.
    Vertical,
}

impl Default for SliderOrientation {
    fn default() -> (r: SliderOrientation)
        ensures
            r == SliderOrientation::Horizontal,
    {
        SliderOrientation::Horizontal
    }
}

/// What an input asks of a slider's value.
#[derive(Clone, Copy, Debug, PartialEq, Eq, Structural)]
pub enum SliderCommand {
    /// Leave the value alone.
    Nothing,
    /// Set the value from the pointer position.
    FromPoint,
    /// Add one step.
    StepUp,
    /// Take one step away.
    StepDown,
    /// Add one page step.
    PageUp,
    /// Take one page step away.
    PageDown,
    /// Go to the minimum.
    ToMin,
    /// Go to the maximum.
    ToMax,
    /// Set the value from the text the action carries, when it parses.
    FromText,
}

/// The input state of a slider.
pub struct SliderInputView {
    pub enabled: bool,
    pub dragging: bool,
}

/// The input state of a slider: whether it takes input and whether the
/// pointer holds its thumb.
#[derive(Debug)]
pub struct SliderInput {
    /// Whether input reaches the slider.
    pub enabled: bool,
    dragging: bool,
}

impl View for SliderInput {
    type V = SliderInputView;

    closed spec fn view(&self) -> SliderInputView {
        SliderInputView { enabled: self.enabled, dragging: self.dragging }
    }
}

/// What a key asks of a slider.
pub open spec fn key_command(k: Key) -> SliderCommand {
    match k {
        Key::ArrowRight | Key::ArrowUp => SliderCommand::StepUp,
        Key::ArrowLeft | Key::ArrowDown => SliderCommand::StepDown,
        Key::PageUp => SliderCommand::PageUp,
        Key::PageDown => SliderCommand::PageDown,
        Key::Home => SliderCommand::ToMin,
        Key::End => SliderCommand::ToMax,
        _ => SliderCommand::Nothing,
    }
}

/// What an accessibility action asks of a slider, and the answer.
pub open spec fn action_command(a: SemanticAction) -> (SliderCommand, EventResponse) {
    match a {
        SemanticAction::SetValue => (SliderCommand::FromText, EventResponse::RequestRepaint),
        SemanticAction::Increment => (SliderCommand::StepUp, EventResponse::RequestRepaint),
        SemanticAction::Decrement => (SliderCommand::StepDown, EventResponse::RequestRepaint),
        SemanticAction::Focus => (SliderCommand::Nothing, EventResponse::CaptureFocus),
        _ => (SliderCommand::Nothing, EventResponse::Ignored),
    }
}

impl SliderInput {
    /// An idle slider input, enabled or not.
    pub fn new(enabled: bool) -> (s: SliderInput)
        ensures
            s@ == (SliderInputView { enabled, dragging: false }),
    {
        SliderInput { enabled, dragging: false }
    }

    /// Whether the pointer holds the thumb.
    pub fn is_dragging(&self) -> (r: bool)
        ensures
            r == self@.dragging,
    {
        self.dragging
    }

    /// A pointer press on the track: a primary press jumps to the point
    /// and grabs the pointer.
    pub fn pointer_pressed(&mut self, button: PointerButton) -> (r: (SliderCommand, EventResponse))
        ensures
            old(self)@.enabled && button == PointerButton::Primary ==> r == (
                SliderCommand::FromPoint,
                EventResponse::CapturePointer,
            ) && final(self)@ == (SliderInputView { dragging: true, ..old(self)@ }),
            !(old(self)@.enabled && button == PointerButton::Primary) ==> r == (
                SliderCommand::Nothing,
                EventResponse::Ignored,
            ) && final(self)@ == old(self)@,
    {
        if self.enabled && button == PointerButton::Primary {
            self.dragging = true;
            (SliderCommand::FromPoint, EventResponse::CapturePointer)
        } else {
            (SliderCommand::Nothing, EventResponse::Ignored)
        }
    }

    /// The pointer moved: a held thumb follows it.
    pub fn pointer_moved(&self) -> (r: (SliderCommand, EventResponse))
        ensures
            r == if self@.enabled && self@.dragging {
                (SliderCommand::FromPoint, EventResponse::RequestRepaint)
            } else {
                (SliderCommand::Nothing, EventResponse::Ignored)
            },
    {
        if self.enabled && self.dragging {
            (SliderCommand::FromPoint, EventResponse::RequestRepaint)
        } else {
            (SliderCommand::Nothing, EventResponse::Ignored)
        }
    }

    /// A pointer release: a held thumb lands at the point and lets go.
    pub fn pointer_released(&mut self, button: PointerButton) -> (r: (SliderCommand, EventResponse))
        ensures
            old(self)@.enabled && button == PointerButton::Primary && old(self)@.dragging ==> r
                == (SliderCommand::FromPoint, EventResponse::ReleasePointer) && final(self)@ == (
            SliderInputView { dragging: false, ..old(self)@ }),
            !(old(self)@.enabled && button == PointerButton::Primary && old(self)@.dragging) ==> r
                == (SliderCommand::Nothing, EventResponse::Ignored) && final(self)@ == old(self)@,
    {
        if self.enabled && button == PointerButton::Primary && self.dragging {
            self.dragging = false;
            (SliderCommand::FromPoint, EventResponse::ReleasePointer)
        } else {
            (SliderCommand::Nothing, EventResponse::Ignored)
        }
    }

    /// A key press, by key name.
    pub fn key_pressed(&self, key: &str) -> (r: (SliderCommand, EventResponse))
        ensures
            self@.enabled && key_command(key_of(key@)) != SliderCommand::Nothing ==> r == (
                key_command(key_of(key@)),
                EventResponse::RequestRepaint,
            ),
            !(self@.enabled && key_command(key_of(key@)) != SliderCommand::Nothing) ==> r == (
                SliderCommand::Nothing,
                EventResponse::Ignored,
            ),
            // Right and up increase, left and down decrease.
            self@.enabled && key_of(key@) == Key::ArrowRight ==> r == (SliderCommand::StepUp, EventResponse::RequestRepaint),
            self@.enabled && key_of(key@) == Key::ArrowUp ==> r == (SliderCommand::StepUp, EventResponse::RequestRepaint),
            self@.enabled && key_of(key@) == Key::ArrowLeft ==> r == (SliderCommand::StepDown, EventResponse::RequestRepaint),
            self@.enabled && key_of(key@) == Key::ArrowDown ==> r == (SliderCommand::StepDown, EventResponse::RequestRepaint),
            self@.enabled && key_of(key@) == Key::PageUp ==> r == (SliderCommand::PageUp, EventResponse::RequestRepaint),
            self@.enabled && key_of(key@) == Key::PageDown ==> r == (SliderCommand::PageDown, EventResponse::RequestRepaint),
            self@.enabled && key_of(key@) == Key::Home ==> r == (SliderCommand::ToMin, EventResponse::RequestRepaint),
            self@.enabled && key_of(key@) == Key::End ==> r == (SliderCommand::ToMax, EventResponse::RequestRepaint),
    {
        if !self.enabled {
            return (SliderCommand::Nothing, EventResponse::Ignored);
        }
        let c = match Key::from_name(key) {
            Key::ArrowRight | Key::ArrowUp => SliderCommand::StepUp,
            Key::ArrowLeft | Key::ArrowDown => SliderCommand::StepDown,
            Key::PageUp => SliderCommand::PageUp,
            Key::PageDown => SliderCommand::PageDown,
            Key::Home => SliderCommand::ToMin,
            Key::End => SliderCommand::ToMax,
            _ => SliderCommand::Nothing,
        };
        if c == SliderCommand::Nothing {
            (c, EventResponse::Ignored)
        } else {
            (c, EventResponse::RequestRepaint)
        }
    }

    /// An accessibility action: set-value, increment and decrement
    /// change the value; focus asks for keyboard focus.
    pub fn semantic_action(&self, action: SemanticAction) -> (r: (SliderCommand, EventResponse))
        ensures
            self@.enabled ==> r == action_command(action),
            self@.enabled && action == SemanticAction::Increment ==> r == (SliderCommand::StepUp, EventResponse::RequestRepaint),
            self@.enabled && action == SemanticAction::Decrement ==> r == (SliderCommand::StepDown, EventResponse::RequestRepaint),
            self@.enabled && action == SemanticAction::SetValue ==> r == (SliderCommand::FromText, EventResponse::RequestRepaint),
            self@.enabled && action == SemanticAction::Focus ==> r == (
                SliderCommand::Nothing,
                EventResponse::CaptureFocus,
            ),
            !self@.enabled ==> r == (SliderCommand::Nothing, EventResponse::Ignored),
    {
        if !self.enabled {
            return (SliderCommand::Nothing, EventResponse::Ignored);
        }
        match action {
            SemanticAction::SetValue => (SliderCommand::FromText, EventResponse::RequestRepaint),
            SemanticAction::Increment => (SliderCommand::StepUp, EventResponse::RequestRepaint),
            SemanticAction::Decrement => (SliderCommand::StepDown, EventResponse::RequestRepaint),
            SemanticAction::Focus => (SliderCommand::Nothing, EventResponse::CaptureFocus),
            _ => (SliderCommand::Nothing, EventResponse::Ignored),
        }
    }
}

} // verus!
