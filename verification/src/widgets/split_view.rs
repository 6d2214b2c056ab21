//! `SplitView`: two panes separated by a draggable divider.
//!
//! The split ratio and the divider's geometry are real numbers kept by
//! the caller; this module decides what each input asks of them. A
//! primary press on the divider grabs it (a double press resets the
//! split instead); while grabbed, moves follow the pointer and any
//! release lets go. Off a drag, the divider highlights under the
//! pointer. Arrow keys nudge the split, `Home`/`End` send it to the
//! ends. A disabled view ignores all input.

use vstd::prelude::*;

use crate::event::{key_of, EventResponse, Key, PointerButton, SemanticAction};

verus! {

/// The axis along which the two panes sit.
#[derive(Clone, Copy, Debug, PartialEq, Eq, Hash, Structural)]
pub enum SplitOrientation {
    /// Panes side by side, divider vertical.
    Horizontal,
    /// Panes stacked, divider horizontal.
    Vertical,
}

impl Default for SplitOrientation {
    fn default() -> (r: SplitOrientation)
        ensures
            r == SplitOrientation::Horizontal,
    {
        SplitOrientation::Horizontal
    }
}

/// What an input asks of the split ratio.
#[derive(Clone, Copy, Debug, PartialEq, Eq, Structural)]
pub enum SplitCommand {
    /// Leave the ratio alone.
    Nothing,
    /// Put the divider under the pointer.
    FromPoint,
    /// Go back to the default ratio.
    Reset,
    /// Nudge the divider toward the start (left or up).
    StepBack,
    /// Nudge the divider toward the end (right or down).
    StepForward,
    /// Send the divider to the start.
    ToStart,
    /// Send the divider to the end.
    ToEnd,
}

/// The input state of a split view.
pub struct SplitInputView {
    pub enabled: bool,
    pub dragging: bool,
    pub highlighted: bool,
}

/// The input state of a split view: whether it takes input, whether
/// the divider is grabbed, and whether it is highlighted.
#[derive(Debug)]
pub struct SplitInput {
    /// Whether input reaches the view.
    pub enabled: bool,
    dragging: bool,
    highlighted: bool,
}

impl View for SplitInput {
    type V = SplitInputView;

    closed spec fn view(&self) -> SplitInputView {
        SplitInputView {
            enabled: self.enabled,
            dragging: self.dragging,
            highlighted: self.highlighted,
        }
    }
}

/// What a key asks of the split.
pub open spec fn key_command(k: Key) -> SplitCommand {
    match k {
        Key::ArrowLeft | Key::ArrowUp => SplitCommand::StepBack,
        Key::ArrowRight | Key::ArrowDown => SplitCommand::StepForward,
        Key::Home => SplitCommand::ToStart,
        Key::End => SplitCommand::ToEnd,
        _ => SplitCommand::Nothing,
    }
}

impl SplitInput {
    /// An idle split view input, enabled or not.
    pub fn new(enabled: bool) -> (s: SplitInput)
        ensures
            s@ == (SplitInputView { enabled, dragging: false, highlighted: false }),
    {
        SplitInput { enabled, dragging: false, highlighted: false }
    }

    /// Whether the divider is grabbed.
    pub fn is_dragging(&self) -> (r: bool)
        ensures
            r == self@.dragging,
    {
        self.dragging
    }

    /// Whether the divider is highlighted.
    pub fn is_highlighted(&self) -> (r: bool)
        ensures
            r == self@.highlighted,
    {
        self.highlighted
    }

    /// The pointer moved (`on_divider`: it is over the divider's hit
    /// zone). A grabbed divider follows it; otherwise the highlight
    /// tracks the divider, repainting on a change.
    pub fn pointer_moved(&mut self, on_divider: bool) -> (r: (SplitCommand, EventResponse))
        ensures
            ({
                let v = old(self)@;
                if !v.enabled {
                    r == (SplitCommand::Nothing, EventResponse::Ignored) && final(self)@ == v
                } else if v.dragging {
                    r == (SplitCommand::FromPoint, EventResponse::RequestRepaint) && final(self)@
                        == v
                } else if on_divider != v.highlighted {
                    r == (SplitCommand::Nothing, EventResponse::RequestRepaint) && final(self)@ == (
                    SplitInputView { highlighted: on_divider, ..v })
                } else {
                    r == (SplitCommand::Nothing, EventResponse::Ignored) && final(self)@ == v
                }
            }),
    {
        if !self.enabled {
            return (SplitCommand::Nothing, EventResponse::Ignored);
        }
        if self.dragging {
            return (SplitCommand::FromPoint, EventResponse::RequestRepaint);
        }
        if on_divider != self.highlighted {
            self.highlighted = on_divider;
            return (SplitCommand::Nothing, EventResponse::RequestRepaint);
        }
        (SplitCommand::Nothing, EventResponse::Ignored)
    }

    /// The pointer left: the highlight clears unless the divider is
    /// grabbed.
    pub fn pointer_leave(&mut self) -> (r: EventResponse)
        ensures
            r == EventResponse::Ignored,
            old(self)@.enabled && !old(self)@.dragging ==> final(self)@ == (SplitInputView {
                highlighted: false,
                ..old(self)@
            }),
            !(old(self)@.enabled && !old(self)@.dragging) ==> final(self)@ == old(self)@,
    {
        if self.enabled && !self.dragging {
            self.highlighted = false;
        }
        EventResponse::Ignored
    }

    /// A pointer press (`on_divider`: over the divider's hit zone;
    /// `count`: the click count). A primary double press on the divider
    /// resets the split; any other primary press on it grabs it.
    pub fn pointer_pressed(&mut self, button: PointerButton, on_divider: bool, count: u32) -> (r: (
        SplitCommand,
        EventResponse,
    ))
        ensures
            ({
                let v = old(self)@;
                if !(v.enabled && button == PointerButton::Primary && on_divider) {
                    r == (SplitCommand::Nothing, EventResponse::Ignored) && final(self)@ == v
                } else if count == 2 {
                    r == (SplitCommand::Reset, EventResponse::RequestRepaint) && final(self)@ == v
                } else {
                    r == (SplitCommand::Nothing, EventResponse::CapturePointer) && final(self)@ == (
                    SplitInputView { dragging: true, ..v })
                }
            }),
    {
        if !self.enabled || button != PointerButton::Primary || !on_divider {
            return (SplitCommand::Nothing, EventResponse::Ignored);
        }
        if count == 2 {
            return (SplitCommand::Reset, EventResponse::RequestRepaint);
        }
        self.dragging = true;
        (SplitCommand::Nothing, EventResponse::CapturePointer)
    }

    /// A pointer release, of any button: a grabbed divider lets go.
    pub fn pointer_released(&mut self) -> (r: EventResponse)
        ensures
            old(self)@.enabled && old(self)@.dragging ==> r == EventResponse::Handled
                && final(self)@ == (SplitInputView { dragging: false, ..old(self)@ }),
            !(old(self)@.enabled && old(self)@.dragging) ==> r == EventResponse::Ignored
                && final(self)@ == old(self)@,
    {
        if self.enabled && self.dragging {
            self.dragging = false;
            EventResponse::Handled
        } else {
            EventResponse::Ignored
        }
    }

    /// A key press, by key name: left/up and right/down nudge the
    /// divider, `Home`/`End` send it to the ends.
    pub fn key_pressed(&self, key: &str) -> (r: (SplitCommand, EventResponse))
        ensures
            self@.enabled && key_command(key_of(key@)) != SplitCommand::Nothing ==> r == (
                key_command(key_of(key@)),
                EventResponse::Handled,
            ),
            !(self@.enabled && key_command(key_of(key@)) != SplitCommand::Nothing) ==> r == (
                SplitCommand::Nothing,
                EventResponse::Ignored,
            ),
            // Left and up move the divider back, right and down forward.
            self@.enabled && key_of(key@) == Key::ArrowLeft ==> r == (SplitCommand::StepBack, EventResponse::Handled),
            self@.enabled && key_of(key@) == Key::ArrowUp ==> r == (SplitCommand::StepBack, EventResponse::Handled),
            self@.enabled && key_of(key@) == Key::ArrowRight ==> r == (SplitCommand::StepForward, EventResponse::Handled),
            self@.enabled && key_of(key@) == Key::ArrowDown ==> r == (SplitCommand::StepForward, EventResponse::Handled),
            self@.enabled && key_of(key@) == Key::Home ==> r == (SplitCommand::ToStart, EventResponse::Handled),
            self@.enabled && key_of(key@) == Key::End ==> r == (SplitCommand::ToEnd, EventResponse::Handled),
    {
        if !self.enabled {
            return (SplitCommand::Nothing, EventResponse::Ignored);
        }
        let c = match Key::from_name(key) {
            Key::ArrowLeft | Key::ArrowUp => SplitCommand::StepBack,
            Key::ArrowRight | Key::ArrowDown => SplitCommand::StepForward,
            Key::Home => SplitCommand::ToStart,
            Key::End => SplitCommand::ToEnd,
            _ => SplitCommand::Nothing,
        };
        if c == SplitCommand::Nothing {
            (c, EventResponse::Ignored)
        } else {
            (c, EventResponse::Handled)
        }
    }

    /// An accessibility action: increment and decrement nudge the
    /// divider.
    pub fn semantic_action(&self, action: SemanticAction) -> (r: (SplitCommand, EventResponse))
        ensures
            r == if self@.enabled && action == SemanticAction::Increment {
                (SplitCommand::StepForward, EventResponse::Handled)
            } else if self@.enabled && action == SemanticAction::Decrement {
                (SplitCommand::StepBack, EventResponse::Handled)
            } else {
                (SplitCommand::Nothing, EventResponse::Ignored)
            },
    {
        if self.enabled && action == SemanticAction::Increment {
            (SplitCommand::StepForward, EventResponse::Handled)
        } else if self.enabled && action == SemanticAction::Decrement {
            (SplitCommand::StepBack, EventResponse::Handled)
        } else {
            (SplitCommand::Nothing, EventResponse::Ignored)
        }
    }
}

} // verus!
