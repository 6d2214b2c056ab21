//! `SignalStrength`: an ascending-bars connectivity indicator with
//! 0 to 4 lit bars and an offline (error-colored) face.

use vstd::prelude::*;

use crate::access::{AccessNode, Role};
use crate::text::{decimal, owned, push_char, push_decimal, push_str};

verus! {

/// Number of bars.
pub const BARS: u8 = 4;

/// The state of an indicator.
pub struct SignalStrengthView {
    pub label: Seq<char>,
    pub offline: bool,
    pub level: u8,
}

/// A connectivity indicator.
#[derive(Debug)]
pub struct SignalStrength {
    /// Accessibility label.
    pub label: String,
    /// Error-colored (offline) face.
    pub offline: bool,
    level: u8,
}

impl View for SignalStrength {
    type V = SignalStrengthView;

    closed spec fn view(&self) -> SignalStrengthView {
        SignalStrengthView { label: self.label@, offline: self.offline, level: self.level }
    }
}

/// `level` capped at [`BARS`].
pub open spec fn capped(level: u8) -> u8 {
    if level < BARS {
        level
    } else {
        BARS
    }
}

impl SignalStrength {
    /// A full-strength, online indicator.
    pub fn new() -> (s: SignalStrength)
        ensures
            s@ == (SignalStrengthView { label: "Signal"@, offline: false, level: BARS }),
    {
        SignalStrength { label: owned("Signal"), offline: false, level: BARS }
    }

    /// Sets the lit level, capped at [`BARS`].
    pub fn level(self, level: u8) -> (s: SignalStrength)
        ensures
            s@ == (SignalStrengthView { level: capped(level), ..self@ }),
    {
        let mut s = self;
        s.set_level(level);
        s
    }

    /// Sets the accessibility label.
    pub fn label(self, label: &str) -> (s: SignalStrength)
        ensures
            s@ == (SignalStrengthView { label: label@, ..self@ }),
    {
        let mut s = self;
        s.label = owned(label);
        s
    }

    /// Sets the offline face.
    pub fn offline(self, offline: bool) -> (s: SignalStrength)
        ensures
            s@ == (SignalStrengthView { offline, ..self@ }),
    {
        let mut s = self;
        s.offline = offline;
        s
    }

    /// The lit level.
    pub fn level_value(&self) -> (r: u8)
        ensures
            r == self@.level,
    {
        self.level
    }

    /// Sets the lit level, capped at [`BARS`].
    pub fn set_level(&mut self, level: u8)
        ensures
            final(self)@ == (SignalStrengthView { level: capped(level), ..old(self)@ }),
    {
        self.level = if level < BARS {
            level
        } else {
            BARS
        };
    }

    /// The accessibility node: an image labelled "label — level/4",
    /// described as offline when offline.
    pub fn accessibility(&self) -> (n: AccessNode)
        ensures
            n == (AccessNode {
                label: n.label,
                description: n.description,
                ..AccessNode::blank(Role::Image)
            }),
            n.label is Some,
            n.label.unwrap()@ == self@.label + " — "@ + decimal(self@.level as nat) + "/"@
                + decimal(BARS as nat),
            self@.offline ==> n.description is Some && n.description.unwrap()@ == "offline"@,
            !self@.offline ==> n.description is None,
    {
        let mut label = self.label.clone();
        push_str(&mut label, " — ");
        push_decimal(&mut label, self.level as u128);
        push_char(&mut label, '/');
        push_decimal(&mut label, BARS as u128);
        proof {
            reveal_strlit("/");
            assert(label@ =~= self@.label + " — "@ + decimal(self@.level as nat) + "/"@ + decimal(
                BARS as nat,
            ));
        }
        let mut node = AccessNode::new(Role::Image);
        node.label = Some(label);
        if self.offline {
            node.description = Some(owned("offline"));
        }
        node
    }
}

/// The level never exceeds the number of bars, whatever was asked.
pub proof fn lemma_level_capped(level: u8)
    ensures
        capped(level) <= BARS,
        level <= BARS ==> capped(level) == level,
{
}

} // verus!
