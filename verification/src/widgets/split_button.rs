//! `SplitButton`: a primary-action face fused with a chevron zone that
//! requests a dropdown.
//!
//! A primary press and release on the face activates the primary
//! action ([`SplitButton::take_activated`]). A primary press on the
//! chevron grabs the pointer; releasing it over the chevron parks a
//! dropdown request ([`SplitButton::take_dropped`]), releasing it
//! anywhere else drops nothing. A disabled button ignores all input.
//! Pointer positions reach the button already resolved to the zone
//! under them.

use vstd::prelude::*;

use crate::access::{AccessNode, Role};
use crate::event::{EventResponse, PointerButton};
use crate::text::{opt_text, owned};

verus! {

/// The part of a split button a pointer position falls in.
#[derive(Clone, Copy, Debug, PartialEq, Eq, Structural)]
pub enum SplitZone {
    /// Outside the button.
    Outside,
    /// The primary-action face.
    Face,
    /// The dropdown chevron.
    Chevron,
}

/// The state of a split button.
pub struct SplitButtonView {
    pub label: Option<Seq<char>>,
    pub enabled: bool,
    pub text: Seq<char>,
    /// The face is held down.
    pub face_pressed: bool,
    /// A face click is parked.
    pub activated: bool,
    /// The chevron is held down.
    pub chevron_pressed: bool,
    /// A dropdown request is parked.
    pub dropped: bool,
}

/// A split button.
#[derive(Debug)]
pub struct SplitButton {
    /// Accessibility label override.
    pub label: Option<String>,
    /// Whether input reaches the button.
    pub enabled: bool,
    text: String,
    face_pressed: bool,
    activated: bool,
    chevron_pressed: bool,
    dropped: bool,
}

impl View for SplitButton {
    type V = SplitButtonView;

    closed spec fn view(&self) -> SplitButtonView {
        SplitButtonView {
            label: opt_text(self.label),
            enabled: self.enabled,
            text: self.text@,
            face_pressed: self.face_pressed,
            activated: self.activated,
            chevron_pressed: self.chevron_pressed,
            dropped: self.dropped,
        }
    }
}

/// A pointer press in `zone`: the state after it and the answer.
pub open spec fn press_step(v: SplitButtonView, button: PointerButton, zone: SplitZone) -> (
    SplitButtonView,
    EventResponse,
) {
    if !v.enabled || button != PointerButton::Primary || zone == SplitZone::Outside {
        (v, EventResponse::Ignored)
    } else if zone == SplitZone::Chevron {
        (SplitButtonView { chevron_pressed: true, ..v }, EventResponse::CapturePointer)
    } else {
        (SplitButtonView { face_pressed: true, ..v }, EventResponse::CapturePointer)
    }
}

/// A pointer release in `zone`: the state after it and the answer.
pub open spec fn release_step(v: SplitButtonView, zone: SplitZone) -> (
    SplitButtonView,
    EventResponse,
) {
    if !v.enabled {
        (v, EventResponse::Ignored)
    } else if v.chevron_pressed {
        (
            SplitButtonView {
                chevron_pressed: false,
                dropped: v.dropped || zone == SplitZone::Chevron,
                ..v
            },
            EventResponse::ReleasePointer,
        )
    } else if zone == SplitZone::Face && v.face_pressed {
        (
            SplitButtonView { face_pressed: false, activated: true, ..v },
            EventResponse::ReleasePointer,
        )
    } else {
        (v, EventResponse::Ignored)
    }
}

impl SplitButton {
    /// An enabled split button whose primary action reads `text`.
    pub fn new(text: &str) -> (b: SplitButton)
        ensures
            b@ == (SplitButtonView {
                label: None,
                enabled: true,
                text: text@,
                face_pressed: false,
                activated: false,
                chevron_pressed: false,
                dropped: false,
            }),
    {
        SplitButton {
            label: None,
            enabled: true,
            text: owned(text),
            face_pressed: false,
            activated: false,
            chevron_pressed: false,
            dropped: false,
        }
    }

    /// Sets the accessibility label.
    pub fn label(self, text: &str) -> (b: SplitButton)
        ensures
            b@ == (SplitButtonView { label: Some(text@), ..self@ }),
    {
        let mut b = self;
        b.label = Some(owned(text));
        b
    }

    /// Sets whether input reaches the button.
    pub fn enabled(self, flag: bool) -> (b: SplitButton)
        ensures
            b@ == (SplitButtonView { enabled: flag, ..self@ }),
    {
        let mut b = self;
        b.enabled = flag;
        b
    }

    /// The primary action's text.
    pub fn text(&self) -> (r: &str)
        ensures
            r@ == self@.text,
    {
        self.text.as_str()
    }

    /// Drains a parked face click.
    pub fn take_activated(&mut self) -> (r: bool)
        ensures
            r == old(self)@.activated,
            final(self)@ == (SplitButtonView { activated: false, ..old(self)@ }),
    {
        let r = self.activated;
        self.activated = false;
        r
    }

    /// Drains a parked dropdown request.
    pub fn take_dropped(&mut self) -> (r: bool)
        ensures
            r == old(self)@.dropped,
            final(self)@ == (SplitButtonView { dropped: false, ..old(self)@ }),
    {
        let r = self.dropped;
        self.dropped = false;
        r
    }

    /// Whether the chevron is held down.
    pub fn is_chevron_pressed(&self) -> (r: bool)
        ensures
            r == self@.chevron_pressed,
    {
        self.chevron_pressed
    }

    /// Number of child widgets: the primary action.
    pub fn child_count(&self) -> (r: usize)
        ensures
            r == 1,
    {
        1
    }

    /// A pointer press in `zone`. A primary press on the chevron holds
    /// it and grabs the pointer; one on the face holds the face and
    /// grabs the pointer. Anything else is ignored.
    pub fn pointer_pressed(&mut self, button: PointerButton, zone: SplitZone) -> (r: EventResponse)
        ensures
            (final(self)@, r) == press_step(old(self)@, button, zone),
            // A press never activates or drops anything by itself.
            final(self)@.activated == old(self)@.activated,
            final(self)@.dropped == old(self)@.dropped,
            // A press holds the zone it lands on, and only that one.
            final(self)@.chevron_pressed == (old(self)@.chevron_pressed || (old(self)@.enabled
                && button == PointerButton::Primary && zone == SplitZone::Chevron)),
            final(self)@.face_pressed == (old(self)@.face_pressed || (old(self)@.enabled && button
                == PointerButton::Primary && zone == SplitZone::Face)),
    {
        if !self.enabled || button != PointerButton::Primary {
            return EventResponse::Ignored;
        }
        match zone {
            SplitZone::Chevron => {
                self.chevron_pressed = true;
                EventResponse::CapturePointer
            },
            SplitZone::Face => {
                self.face_pressed = true;
                EventResponse::CapturePointer
            },
            SplitZone::Outside => EventResponse::Ignored,
        }
    }

    /// A pointer release in `zone`. A held chevron lets go (releasing
    /// the grab) and parks a dropdown request when released over the
    /// chevron. Otherwise a release over a held face lets it go and
    /// parks a face click; a release elsewhere is ignored.
    pub fn pointer_released(&mut self, zone: SplitZone) -> (r: EventResponse)
        ensures
            (final(self)@, r) == release_step(old(self)@, zone),
            // Only a release over the face can activate, and only one
            // that ends a face press.
            zone != SplitZone::Face ==> final(self)@.activated == old(self)@.activated,
            final(self)@.activated != old(self)@.activated ==> zone == SplitZone::Face
                && old(self)@.face_pressed && old(self)@.enabled && !old(self)@.chevron_pressed,
            old(self)@.enabled && !old(self)@.chevron_pressed && old(self)@.face_pressed && zone
                == SplitZone::Face ==> final(self)@.activated,
            // Only a release over the chevron that ends a chevron press
            // drops the menu.
            final(self)@.dropped != old(self)@.dropped ==> zone == SplitZone::Chevron
                && old(self)@.chevron_pressed && old(self)@.enabled,
            old(self)@.enabled && old(self)@.chevron_pressed && zone == SplitZone::Chevron
                ==> final(self)@.dropped,
    {
        if !self.enabled {
            return EventResponse::Ignored;
        }
        if self.chevron_pressed {
            self.chevron_pressed = false;
            if zone == SplitZone::Chevron {
                self.dropped = true;
            }
            return EventResponse::ReleasePointer;
        }
        if zone == SplitZone::Face && self.face_pressed {
            self.face_pressed = false;
            self.activated = true;
            return EventResponse::ReleasePointer;
        }
        EventResponse::Ignored
    }

    /// The accessibility node: a button with a popup menu, labelled by
    /// the override or else the primary text, disabled when disabled.
    pub fn accessibility(&self) -> (n: AccessNode)
        ensures
            n == (AccessNode {
                label: n.label,
                disabled: !self@.enabled,
                has_popup_menu: true,
                ..AccessNode::blank(Role::Button)
            }),
            n.label is Some,
            n.label.unwrap()@ == match self@.label {
                Some(l) => l,
                None => self@.text,
            },
    {
        let mut node = AccessNode::new(Role::Button);
        node.label = match &self.label {
            Some(l) => Some(l.clone()),
            None => Some(self.text.clone()),
        };
        node.disabled = !self.enabled;
        node.has_popup_menu = true;
        node
    }
}

/// A primary click (press then release over the same zone) on an idle,
/// enabled button: on the chevron it parks a dropdown request and no
/// face click; on the face it parks a face click and no dropdown
/// request. A chevron press released anywhere but the chevron parks
/// nothing. On a disabled button a click changes nothing.
pub proof fn lemma_click_zones(v: SplitButtonView, zone: SplitZone)
    requires
        !v.face_pressed,
        !v.chevron_pressed,
        !v.activated,
        !v.dropped,
    ensures
        ({
            let after = release_step(press_step(v, PointerButton::Primary, zone).0, zone).0;
            &&& v.enabled && zone == SplitZone::Chevron ==> after.dropped && !after.activated
                && !after.chevron_pressed
            &&& v.enabled && zone == SplitZone::Face ==> after.activated && !after.dropped
                && !after.face_pressed
            &&& !v.enabled || zone == SplitZone::Outside ==> after == v
        }),
        zone != SplitZone::Chevron ==> !release_step(
            press_step(v, PointerButton::Primary, SplitZone::Chevron).0,
            zone,
        ).0.dropped,
{
}


/// A release activates the primary action only over the face and only
/// when it ends a face press; it drops the menu only over the chevron
/// and only when it ends a chevron press. A release anywhere else
/// leaves both requests as they were.
pub proof fn lemma_release_acts_on_its_zone(v: SplitButtonView, zone: SplitZone)
    ensures
        zone != SplitZone::Face ==> release_step(v, zone).0.activated == v.activated,
        zone != SplitZone::Chevron ==> release_step(v, zone).0.dropped == v.dropped,
        release_step(v, zone).0.activated && !v.activated ==> zone == SplitZone::Face
            && v.face_pressed,
        release_step(v, zone).0.dropped && !v.dropped ==> zone == SplitZone::Chevron
            && v.chevron_pressed,
        v.enabled && v.face_pressed && !v.chevron_pressed && zone == SplitZone::Face
            ==> release_step(v, zone).0.activated,
        v.enabled && v.chevron_pressed && zone == SplitZone::Chevron ==> release_step(
            v,
            zone,
        ).0.dropped,
{
}

} // verus!
