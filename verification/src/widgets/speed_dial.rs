//! `SpeedDial`: a floating action button that fans out a stack of mini
//! actions. Clicking the button toggles the fan; clicking a mini action
//! parks its index for [`SpeedDial::take_action`] and closes the fan;
//! clicking empty space inside closes an open fan; `Escape` closes,
//! `Enter`/`Space` open.

use vstd::prelude::*;

use crate::access::{AccessNode, Role};
use crate::event::{key_of, EventResponse, Key, PointerButton};
use crate::text::{owned, push_str};

verus! {

/// What a press landed on.
#[derive(Clone, Copy, Debug, PartialEq, Eq, Structural)]
pub enum DialTarget {
    /// Outside the widget.
    Outside,
    /// Mini action `i` (0 is nearest the button).
    Action(usize),
    /// The floating action button.
    Fab,
    /// Empty space inside the widget.
    Background,
}

/// The state of a speed dial.
pub struct SpeedDialView {
    pub label: Seq<char>,
    pub actions: Seq<Seq<char>>,
    pub open: bool,
    pub clicked: Option<usize>,
}

/// A floating-action-button fan.
#[derive(Debug)]
pub struct SpeedDial {
    /// Accessibility label.
    pub label: String,
    actions: Vec<String>,
    open: bool,
    clicked: Option<usize>,
}

impl View for SpeedDial {
    type V = SpeedDialView;

    closed spec fn view(&self) -> SpeedDialView {
        SpeedDialView {
            label: self.label@,
            actions: self.actions@.map_values(|a: String| a@),
            open: self.open,
            clicked: self.clicked,
        }
    }
}

impl SpeedDial {
    /// A closed speed dial without actions.
    pub fn new() -> (d: SpeedDial)
        ensures
            d@ == (SpeedDialView {
                label: "Actions"@,
                actions: Seq::empty(),
                open: false,
                clicked: None,
            }),
    {
        let d = SpeedDial { label: owned("Actions"), actions: Vec::new(), open: false, clicked: None };
        assert(d@.actions =~= Seq::<Seq<char>>::empty());
        d
    }

    /// Sets the accessibility label.
    pub fn label(self, label: &str) -> (d: SpeedDial)
        ensures
            d@ == (SpeedDialView { label: label@, ..self@ }),
    {
        let mut d = self;
        d.label = owned(label);
        d
    }

    /// Appends a mini action (the fan grows upward).
    pub fn action(self, label: &str) -> (d: SpeedDial)
        ensures
            d@ == (SpeedDialView { actions: self@.actions.push(label@), ..self@ }),
    {
        let mut d = self;
        d.actions.push(owned(label));
        assert(d@.actions =~= self@.actions.push(label@));
        d
    }

    /// Number of mini actions.
    pub fn action_count(&self) -> (r: usize)
        ensures
            r == self@.actions.len(),
    {
        self.actions.len()
    }

    /// The label of action `i` (0 is nearest the button).
    pub fn action_label(&self, i: usize) -> (r: Option<&str>)
        ensures
            i < self@.actions.len() ==> r is Some && r.unwrap()@ == self@.actions[i as int],
            i >= self@.actions.len() ==> r is None,
    {
        if i < self.actions.len() {
            Some(self.actions[i].as_str())
        } else {
            None
        }
    }

    /// Whether the fan is open.
    pub fn is_open(&self) -> (r: bool)
        ensures
            r == self@.open,
    {
        self.open
    }

    /// Opens the fan.
    pub fn open(&mut self)
        ensures
            final(self)@ == (SpeedDialView { open: true, ..old(self)@ }),
    {
        self.open = true;
    }

    /// Closes the fan.
    pub fn close(&mut self)
        ensures
            final(self)@ == (SpeedDialView { open: false, ..old(self)@ }),
    {
        self.open = false;
    }

    /// Toggles the fan.
    pub fn toggle(&mut self)
        ensures
            final(self)@ == (SpeedDialView { open: !old(self)@.open, ..old(self)@ }),
    {
        self.open = !self.open;
    }

    /// Drains the index of the last clicked mini action.
    pub fn take_action(&mut self) -> (r: Option<usize>)
        ensures
            r == old(self)@.clicked,
            final(self)@ == (SpeedDialView { clicked: None, ..old(self)@ }),
    {
        self.clicked.take()
    }

    /// A pointer press on `target`.
    pub fn pointer_pressed(&mut self, button: PointerButton, target: DialTarget) -> (r:
        EventResponse)
        ensures
            ({
                let v = old(self)@;
                if button != PointerButton::Primary || target == DialTarget::Outside {
                    final(self)@ == v && r == EventResponse::Ignored
                } else {
                    match target {
                        DialTarget::Action(i) => final(self)@ == (SpeedDialView {
                            clicked: Some(i),
                            open: false,
                            ..v
                        }) && r == EventResponse::RequestRepaint,
                        DialTarget::Fab => final(self)@ == (SpeedDialView { open: !v.open, ..v })
                            && r == EventResponse::RequestRepaint,
                        _ => if v.open {
                            final(self)@ == (SpeedDialView { open: false, ..v }) && r
                                == EventResponse::RequestRepaint
                        } else {
                            final(self)@ == v && r == EventResponse::Handled
                        },
                    }
                }
            }),
    {
        match button {
            PointerButton::Primary => match target {
                DialTarget::Outside => EventResponse::Ignored,
                DialTarget::Action(i) => {
                    self.clicked = Some(i);
                    self.open = false;
                    EventResponse::RequestRepaint
                },
                DialTarget::Fab => {
                    self.toggle();
                    EventResponse::RequestRepaint
                },
                DialTarget::Background => {
                    if self.open {
                        self.open = false;
                        return EventResponse::RequestRepaint;
                    }
                    EventResponse::Handled
                },
            },
            _ => EventResponse::Ignored,
        }
    }

    /// A key press: `Escape` closes an open fan, `Enter`/`Space` open a
    /// closed one.
    pub fn key_pressed(&mut self, key: &str) -> (r: EventResponse)
        ensures
            ({
                let v = old(self)@;
                let k = key_of(key@);
                if k == Key::Escape && v.open {
                    final(self)@ == (SpeedDialView { open: false, ..v }) && r
                        == EventResponse::RequestRepaint
                } else if (k == Key::Enter || k == Key::Space) && !v.open {
                    final(self)@ == (SpeedDialView { open: true, ..v }) && r
                        == EventResponse::RequestRepaint
                } else {
                    final(self)@ == v && r == EventResponse::Ignored
                }
            }),
    {
        let k = Key::from_name(key);
        match k {
            Key::Escape => {
                if self.open {
                    self.open = false;
                    return EventResponse::RequestRepaint;
                }
                EventResponse::Ignored
            },
            Key::Enter | Key::Space => {
                if !self.open {
                    self.open = true;
                    return EventResponse::RequestRepaint;
                }
                EventResponse::Ignored
            },
            _ => EventResponse::Ignored,
        }
    }

    /// The accessibility node: a button labelled by the label, marked
    /// expanded while the fan is open.
    pub fn accessibility(&self) -> (n: AccessNode)
        ensures
            n == (AccessNode { label: n.label, ..AccessNode::blank(Role::Button) }),
            n.label is Some,
            n.label.unwrap()@ == (if self@.open {
                self@.label + " — expanded"@
            } else {
                self@.label
            }),
    {
        let mut label = self.label.clone();
        if self.open {
            push_str(&mut label, " — expanded");
        }
        let mut node = AccessNode::new(Role::Button);
        node.label = Some(label);
        node
    }
}

} // verus!
