//! `SpinBox` input logic: a numeric field with up/down step buttons.
//!
//! The value, its range, its steps and the text field that edits it are
//! kept by the caller; this module decides what each input asks of
//! them. A primary press on a step button steps once and holds the
//! button; held past [`HOLD_DELAY_NS`], it repeats every
//! [`HOLD_RATE_NS`]. Arrow keys step, page keys jump by the page step,
//! `Home`/`End` go to the range ends and `Enter` commits the typed
//! text; every step first commits the typed text. The wheel steps, up
//! increasing. Losing focus commits the typed text and lets a held
//! button go. Other input goes to the text field: presses only when on
//! it, moves and releases always. A disabled box ignores all input.

use vstd::prelude::*;

use crate::event::{key_of, EventResponse, Key, PointerButton, SemanticAction};

verus! {

/// How long a step button must be held before it repeats, in
/// nanoseconds.
pub const HOLD_DELAY_NS: u64 = 450_000_000;

/// The interval between repeats of a held step button, in nanoseconds.
pub const HOLD_RATE_NS: u64 = 70_000_000;

/// A step button.
#[derive(Clone, Copy, Debug, PartialEq, Eq, Structural)]
pub enum SpinButton {
    Up,
    Down,
}

/// Where a pointer position falls.
#[derive(Clone, Copy, Debug, PartialEq, Eq, Structural)]
pub enum SpinZone {
    /// On the up step button.
    Up,
    /// On the down step button.
    Down,
    /// On the text field.
    Field,
    /// Anywhere else.
    Elsewhere,
}

/// What an input asks of the value.
#[derive(Clone, Copy, Debug, PartialEq, Eq, Structural)]
pub enum SpinCommand {
    /// Leave the value alone.
    Nothing,
    /// Commit the typed text, then add one step.
    StepUp,
    /// Commit the typed text, then take one step away.
    StepDown,
    /// Commit the typed text, then add one page step.
    PageUp,
    /// Commit the typed text, then take one page step away.
    PageDown,
    /// Commit the typed text, then go to the minimum.
    ToMin,
    /// Commit the typed text, then go to the maximum.
    ToMax,
    /// Commit the typed text.
    Commit,
    /// Set the value from the text the action carries, when it parses.
    FromText,
}

/// What to answer to an input.
#[derive(Clone, Copy, Debug, PartialEq, Eq, Structural)]
pub enum SpinAnswer {
    /// This response.
    Say(EventResponse),
    /// Whatever the text field answered.
    Field,
}

/// Where an input goes: carry out `command`, then hand the event to the
/// text field when `forward`, then answer.
#[derive(Clone, Copy, Debug, PartialEq, Eq, Structural)]
pub struct SpinOutcome {
    pub command: SpinCommand,
    pub forward: bool,
    pub answer: SpinAnswer,
}

/// The state of a spin box's input.
pub struct SpinInputView {
    pub enabled: bool,
    pub pressed: Option<SpinButton>,
    pub hover: Option<SpinButton>,
    pub editing: bool,
    /// How long the pressed button has been held.
    pub hold_ns: u64,
    /// Time held past the delay and not yet spent on repeats.
    pub repeat_ns: u64,
}

/// The input state of a spin box.
#[derive(Debug)]
pub struct SpinInput {
    /// Whether input reaches the box.
    pub enabled: bool,
    pressed: Option<SpinButton>,
    hover: Option<SpinButton>,
    editing: bool,
    hold_ns: u64,
    repeat_ns: u64,
}

impl View for SpinInput {
    type V = SpinInputView;

    closed spec fn view(&self) -> SpinInputView {
        SpinInputView {
            enabled: self.enabled,
            pressed: self.pressed,
            hover: self.hover,
            editing: self.editing,
            hold_ns: self.hold_ns,
            repeat_ns: self.repeat_ns,
        }
    }
}

/// An outcome that only answers.
pub open spec fn say(r: EventResponse) -> SpinOutcome {
    SpinOutcome { command: SpinCommand::Nothing, forward: false, answer: SpinAnswer::Say(r) }
}

/// An outcome that hands the event to the text field.
pub open spec fn to_field() -> SpinOutcome {
    SpinOutcome { command: SpinCommand::Nothing, forward: true, answer: SpinAnswer::Field }
}

/// A command answered with a repaint.
pub open spec fn repaint(c: SpinCommand) -> SpinOutcome {
    SpinOutcome {
        command: c,
        forward: false,
        answer: SpinAnswer::Say(EventResponse::RequestRepaint),
    }
}

/// What a key asks of the value (`Nothing`: the key goes to the field).
pub open spec fn key_command(k: Key) -> SpinCommand {
    match k {
        Key::ArrowUp => SpinCommand::StepUp,
        Key::ArrowDown => SpinCommand::StepDown,
        Key::PageUp => SpinCommand::PageUp,
        Key::PageDown => SpinCommand::PageDown,
        Key::Home => SpinCommand::ToMin,
        Key::End => SpinCommand::ToMax,
        Key::Enter => SpinCommand::Commit,
        _ => SpinCommand::Nothing,
    }
}

/// What an accessibility action asks of the box.
pub open spec fn action_outcome(a: SemanticAction) -> SpinOutcome {
    match a {
        SemanticAction::SetValue => repaint(SpinCommand::FromText),
        SemanticAction::Increment => repaint(SpinCommand::StepUp),
        SemanticAction::Decrement => repaint(SpinCommand::StepDown),
        SemanticAction::Focus => say(EventResponse::CaptureFocus),
        _ => say(EventResponse::Ignored),
    }
}

/// `a + b`, held at `u64::MAX`.
pub open spec fn sat_add(a: u64, b: u64) -> u64 {
    if a + b > u64::MAX {
        u64::MAX
    } else {
        (a + b) as u64
    }
}

/// The step button a zone is, if any.
pub open spec fn button_of(zone: SpinZone) -> Option<SpinButton> {
    match zone {
        SpinZone::Up => Some(SpinButton::Up),
        SpinZone::Down => Some(SpinButton::Down),
        _ => None,
    }
}

impl SpinInput {
    /// An idle spin box input, enabled or not.
    pub fn new(enabled: bool) -> (s: SpinInput)
        ensures
            s@ == (SpinInputView {
                enabled,
                pressed: None,
                hover: None,
                editing: false,
                hold_ns: 0,
                repeat_ns: 0,
            }),
    {
        SpinInput { enabled, pressed: None, hover: None, editing: false, hold_ns: 0, repeat_ns: 0 }
    }

    /// The held step button, if any.
    pub fn pressed(&self) -> (r: Option<SpinButton>)
        ensures
            r == self@.pressed,
    {
        self.pressed
    }

    /// Whether a step button is held.
    pub fn is_pressed(&self) -> (r: bool)
        ensures
            r == self@.pressed is Some,
    {
        self.pressed.is_some()
    }

    /// The step button under the pointer, if any.
    pub fn hover(&self) -> (r: Option<SpinButton>)
        ensures
            r == self@.hover,
    {
        self.hover
    }

    /// Whether the box has keyboard focus.
    pub fn is_editing(&self) -> (r: bool)
        ensures
            r == self@.editing,
    {
        self.editing
    }

    /// A pointer press in `zone`. A primary press on a step button steps
    /// once, holds the button (restarting the hold clocks) and grabs
    /// the pointer; any other press goes to the field when on it.
    pub fn pointer_pressed(&mut self, button: PointerButton, zone: SpinZone) -> (r: SpinOutcome)
        ensures
            ({
                let v = old(self)@;
                if !v.enabled {
                    r == say(EventResponse::Ignored) && final(self)@ == v
                } else if button == PointerButton::Primary && button_of(zone) is Some {
                    r == (SpinOutcome {
                        command: if zone == SpinZone::Up {
                            SpinCommand::StepUp
                        } else {
                            SpinCommand::StepDown
                        },
                        forward: false,
                        answer: SpinAnswer::Say(EventResponse::CapturePointer),
                    }) && final(self)@ == (SpinInputView {
                        pressed: button_of(zone),
                        hold_ns: 0,
                        repeat_ns: 0,
                        ..v
                    })
                } else if zone == SpinZone::Field {
                    r == to_field() && final(self)@ == v
                } else {
                    r == say(EventResponse::Ignored) && final(self)@ == v
                }
            }),
            // Each step button holds itself and steps its own way.
            old(self)@.enabled && button == PointerButton::Primary && zone == SpinZone::Up
                ==> final(self)@.pressed == Some(SpinButton::Up) && r.command == SpinCommand::StepUp,
            old(self)@.enabled && button == PointerButton::Primary && zone == SpinZone::Down
                ==> final(self)@.pressed == Some(SpinButton::Down) && r.command == SpinCommand::StepDown,
            zone != SpinZone::Up && zone != SpinZone::Down ==> final(self)@.pressed == old(self)@.pressed
                && r.command == SpinCommand::Nothing,
    {
        if !self.enabled {
            return SpinOutcome {
                command: SpinCommand::Nothing,
                forward: false,
                answer: SpinAnswer::Say(EventResponse::Ignored),
            };
        }
        if button == PointerButton::Primary && (zone == SpinZone::Up || zone == SpinZone::Down) {
            let up = zone == SpinZone::Up;
            self.pressed = Some(
                if up {
                    SpinButton::Up
                } else {
                    SpinButton::Down
                },
            );
            self.hold_ns = 0;
            self.repeat_ns = 0;
            return SpinOutcome {
                command: if up {
                    SpinCommand::StepUp
                } else {
                    SpinCommand::StepDown
                },
                forward: false,
                answer: SpinAnswer::Say(EventResponse::CapturePointer),
            };
        }
        if zone == SpinZone::Field {
            SpinOutcome { command: SpinCommand::Nothing, forward: true, answer: SpinAnswer::Field }
        } else {
            SpinOutcome {
                command: SpinCommand::Nothing,
                forward: false,
                answer: SpinAnswer::Say(EventResponse::Ignored),
            }
        }
    }

    /// The pointer moved into `zone`. While a button is held nothing
    /// happens; otherwise the hover follows the step buttons, the move
    /// goes to the field, and a change of hover repaints.
    pub fn pointer_moved(&mut self, zone: SpinZone) -> (r: SpinOutcome)
        ensures
            ({
                let v = old(self)@;
                if !v.enabled || v.pressed is Some {
                    r == say(EventResponse::Ignored) && final(self)@ == v
                } else {
                    final(self)@ == (SpinInputView { hover: button_of(zone), ..v }) && r == (
                    SpinOutcome {
                        command: SpinCommand::Nothing,
                        forward: true,
                        answer: if button_of(zone) != v.hover {
                            SpinAnswer::Say(EventResponse::RequestRepaint)
                        } else {
                            SpinAnswer::Field
                        },
                    })
                }
            }),
            // The hover lands on the button under the pointer.
            old(self)@.enabled && old(self)@.pressed is None && zone == SpinZone::Up
                ==> final(self)@.hover == Some(SpinButton::Up),
            old(self)@.enabled && old(self)@.pressed is None && zone == SpinZone::Down
                ==> final(self)@.hover == Some(SpinButton::Down),
            old(self)@.enabled && old(self)@.pressed is None && zone != SpinZone::Up && zone
                != SpinZone::Down ==> final(self)@.hover is None,
    {
        if !self.enabled || self.pressed.is_some() {
            return SpinOutcome {
                command: SpinCommand::Nothing,
                forward: false,
                answer: SpinAnswer::Say(EventResponse::Ignored),
            };
        }
        let hover = match zone {
            SpinZone::Up => Some(SpinButton::Up),
            SpinZone::Down => Some(SpinButton::Down),
            _ => None,
        };
        let changed = hover != self.hover;
        self.hover = hover;
        SpinOutcome {
            command: SpinCommand::Nothing,
            forward: true,
            answer: if changed {
                SpinAnswer::Say(EventResponse::RequestRepaint)
            } else {
                SpinAnswer::Field
            },
        }
    }

    /// A pointer release: a primary release lets a held button go and
    /// frees the pointer; any other release goes to the field.
    pub fn pointer_released(&mut self, button: PointerButton) -> (r: SpinOutcome)
        ensures
            ({
                let v = old(self)@;
                if !v.enabled {
                    r == say(EventResponse::Ignored) && final(self)@ == v
                } else if button == PointerButton::Primary && v.pressed is Some {
                    r == say(EventResponse::ReleasePointer) && final(self)@ == (SpinInputView {
                        pressed: None,
                        ..v
                    })
                } else {
                    r == to_field() && final(self)@ == v
                }
            }),
    {
        if !self.enabled {
            return SpinOutcome {
                command: SpinCommand::Nothing,
                forward: false,
                answer: SpinAnswer::Say(EventResponse::Ignored),
            };
        }
        if button == PointerButton::Primary && self.pressed.is_some() {
            self.pressed = None;
            return SpinOutcome {
                command: SpinCommand::Nothing,
                forward: false,
                answer: SpinAnswer::Say(EventResponse::ReleasePointer),
            };
        }
        SpinOutcome { command: SpinCommand::Nothing, forward: true, answer: SpinAnswer::Field }
    }

    /// The pointer left: a hovered button clears and repaints.
    pub fn pointer_leave(&mut self) -> (r: SpinOutcome)
        ensures
            ({
                let v = old(self)@;
                if v.enabled && v.hover is Some {
                    r == say(EventResponse::RequestRepaint) && final(self)@ == (SpinInputView {
                        hover: None,
                        ..v
                    })
                } else {
                    r == say(EventResponse::Ignored) && final(self)@ == v
                }
            }),
    {
        if self.enabled && self.hover.is_some() {
            self.hover = None;
            SpinOutcome {
                command: SpinCommand::Nothing,
                forward: false,
                answer: SpinAnswer::Say(EventResponse::RequestRepaint),
            }
        } else {
            SpinOutcome {
                command: SpinCommand::Nothing,
                forward: false,
                answer: SpinAnswer::Say(EventResponse::Ignored),
            }
        }
    }

    /// A wheel turn whose vertical motion has sign `dy_sign`: up steps
    /// up, down steps down, no vertical motion is ignored.
    pub fn wheel(&self, dy_sign: i8) -> (r: SpinOutcome)
        ensures
            r == if !self@.enabled || dy_sign == 0 {
                say(EventResponse::Ignored)
            } else if dy_sign > 0 {
                repaint(SpinCommand::StepUp)
            } else {
                repaint(SpinCommand::StepDown)
            },
    {
        if !self.enabled || dy_sign == 0 {
            SpinOutcome {
                command: SpinCommand::Nothing,
                forward: false,
                answer: SpinAnswer::Say(EventResponse::Ignored),
            }
        } else {
            SpinOutcome {
                command: if dy_sign > 0 {
                    SpinCommand::StepUp
                } else {
                    SpinCommand::StepDown
                },
                forward: false,
                answer: SpinAnswer::Say(EventResponse::RequestRepaint),
            }
        }
    }

    /// A key press, by key name: arrows step, page keys jump, `Home` and
    /// `End` go to the ends, `Enter` commits; other keys go to the field.
    pub fn key_pressed(&self, key: &str) -> (r: SpinOutcome)
        ensures
            !self@.enabled ==> r == say(EventResponse::Ignored),
            self@.enabled && key_command(key_of(key@)) != SpinCommand::Nothing ==> r == repaint(
                key_command(key_of(key@)),
            ),
            self@.enabled && key_command(key_of(key@)) == SpinCommand::Nothing ==> r == to_field(),
            // Up steps up, down steps down, Enter commits.
            self@.enabled && key_of(key@) == Key::ArrowUp ==> r == repaint(SpinCommand::StepUp),
            self@.enabled && key_of(key@) == Key::ArrowDown ==> r == repaint(SpinCommand::StepDown),
            self@.enabled && key_of(key@) == Key::PageUp ==> r == repaint(SpinCommand::PageUp),
            self@.enabled && key_of(key@) == Key::PageDown ==> r == repaint(SpinCommand::PageDown),
            self@.enabled && key_of(key@) == Key::Home ==> r == repaint(SpinCommand::ToMin),
            self@.enabled && key_of(key@) == Key::End ==> r == repaint(SpinCommand::ToMax),
            self@.enabled && key_of(key@) == Key::Enter ==> r == repaint(SpinCommand::Commit),
    {
        if !self.enabled {
            return SpinOutcome {
                command: SpinCommand::Nothing,
                forward: false,
                answer: SpinAnswer::Say(EventResponse::Ignored),
            };
        }
        let c = match Key::from_name(key) {
            Key::ArrowUp => SpinCommand::StepUp,
            Key::ArrowDown => SpinCommand::StepDown,
            Key::PageUp => SpinCommand::PageUp,
            Key::PageDown => SpinCommand::PageDown,
            Key::Home => SpinCommand::ToMin,
            Key::End => SpinCommand::ToMax,
            Key::Enter => SpinCommand::Commit,
            _ => SpinCommand::Nothing,
        };
        if c == SpinCommand::Nothing {
            SpinOutcome { command: c, forward: true, answer: SpinAnswer::Field }
        } else {
            SpinOutcome {
                command: c,
                forward: false,
                answer: SpinAnswer::Say(EventResponse::RequestRepaint),
            }
        }
    }

    /// Keyboard focus arrived (`gained`) or left. Arriving starts
    /// editing; leaving commits the typed text, stops editing and lets a
    /// held button go. Either way the field hears of it.
    pub fn focus_changed(&mut self, gained: bool) -> (r: SpinOutcome)
        ensures
            ({
                let v = old(self)@;
                if !v.enabled {
                    r == say(EventResponse::Ignored) && final(self)@ == v
                } else if gained {
                    r == to_field() && final(self)@ == (SpinInputView { editing: true, ..v })
                } else {
                    r == (SpinOutcome {
                        command: SpinCommand::Commit,
                        forward: true,
                        answer: SpinAnswer::Field,
                    }) && final(self)@ == (SpinInputView { editing: false, pressed: None, ..v })
                }
            }),
    {
        if !self.enabled {
            return SpinOutcome {
                command: SpinCommand::Nothing,
                forward: false,
                answer: SpinAnswer::Say(EventResponse::Ignored),
            };
        }
        if gained {
            self.editing = true;
            SpinOutcome { command: SpinCommand::Nothing, forward: true, answer: SpinAnswer::Field }
        } else {
            self.editing = false;
            self.pressed = None;
            SpinOutcome { command: SpinCommand::Commit, forward: true, answer: SpinAnswer::Field }
        }
    }

    /// An accessibility action: set-value, increment and decrement
    /// change the value; focus asks for keyboard focus.
    pub fn semantic_action(&self, action: SemanticAction) -> (r: SpinOutcome)
        ensures
            self@.enabled ==> r == action_outcome(action),
            self@.enabled && action == SemanticAction::Increment ==> r == repaint(SpinCommand::StepUp),
            self@.enabled && action == SemanticAction::Decrement ==> r == repaint(
                SpinCommand::StepDown,
            ),
            self@.enabled && action == SemanticAction::SetValue ==> r == repaint(
                SpinCommand::FromText,
            ),
            !self@.enabled ==> r == say(EventResponse::Ignored),
    {
        let (command, answer) = if !self.enabled {
            (SpinCommand::Nothing, EventResponse::Ignored)
        } else {
            match action {
                SemanticAction::SetValue => (SpinCommand::FromText, EventResponse::RequestRepaint),
                SemanticAction::Increment => (SpinCommand::StepUp, EventResponse::RequestRepaint),
                SemanticAction::Decrement => (SpinCommand::StepDown, EventResponse::RequestRepaint),
                SemanticAction::Focus => (SpinCommand::Nothing, EventResponse::CaptureFocus),
                _ => (SpinCommand::Nothing, EventResponse::Ignored),
            }
        };
        SpinOutcome { command, forward: false, answer: SpinAnswer::Say(answer) }
    }

    /// Advances the hold clock by `dt_ns`; returns how many repeat
    /// steps (in the held button's direction) are due. Nothing happens
    /// without a held button; repeats start once the button has been
    /// held for [`HOLD_DELAY_NS`] and come every [`HOLD_RATE_NS`] of
    /// further holding.
    pub fn tick(&mut self, dt_ns: u64) -> (r: u64)
        ensures
            ({
                let v = old(self)@;
                let hold = sat_add(v.hold_ns, dt_ns);
                let acc = sat_add(v.repeat_ns, dt_ns);
                if v.pressed is None {
                    r == 0 && final(self)@ == v
                } else if hold < HOLD_DELAY_NS {
                    r == 0 && final(self)@ == (SpinInputView { hold_ns: hold, ..v })
                } else {
                    r == acc / HOLD_RATE_NS && final(self)@ == (SpinInputView {
                        hold_ns: hold,
                        repeat_ns: (acc % HOLD_RATE_NS) as u64,
                        ..v
                    })
                }
            }),
    {
        if self.pressed.is_none() {
            return 0;
        }
        self.hold_ns = self.hold_ns.saturating_add(dt_ns);
        if self.hold_ns < HOLD_DELAY_NS {
            return 0;
        }
        let acc = self.repeat_ns.saturating_add(dt_ns);
        self.repeat_ns = acc % HOLD_RATE_NS;
        acc / HOLD_RATE_NS
    }
}

} // verus!
