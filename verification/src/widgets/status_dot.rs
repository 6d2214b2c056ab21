//! `StatusDot`: a small colored status lamp with an optional label
//! (online/offline, build passing/failing).

use vstd::prelude::*;

use crate::access::{AccessNode, Role};
use crate::text::owned;

verus! {

/// Neutral lamp color.
pub const OFF: [u8; 4] = [160, 160, 166, 255];
/// Informational lamp color.
pub const INFO: [u8; 4] = [60, 120, 220, 255];
/// Nominal lamp color.
pub const OK: [u8; 4] = [46, 160, 90, 255];
/// Degraded lamp color.
pub const WARN: [u8; 4] = [220, 160, 40, 255];
/// Fault lamp color.
pub const ERR: [u8; 4] = [210, 60, 60, 255];

/// Status severity for the lamp.
#[derive(Clone, Copy, Debug, PartialEq, Eq, Structural)]
pub enum Status {
    /// Neutral, no signal — gray.
    Off,
    /// Informational — blue.
    Info,
    /// Nominal — green; spoken as "ok".
    Nominal,
    /// Degraded — amber.
    Warning,
    /// Fault — red.
    Error,
}

/// The word spoken for a status.
pub open spec fn status_word(s: Status) -> Seq<char> {
    match s {
        Status::Off => "off"@,
        Status::Info => "info"@,
        Status::Nominal => "ok"@,
        Status::Warning => "warning"@,
        Status::Error => "error"@,
    }
}

/// The lamp color of a status.
pub open spec fn status_color(s: Status) -> [u8; 4] {
    match s {
        Status::Off => OFF,
        Status::Info => INFO,
        Status::Nominal => OK,
        Status::Warning => WARN,
        Status::Error => ERR,
    }
}

impl Status {
    /// The word spoken for the status.
    pub fn label(self) -> (r: &'static str)
        ensures
            r@ == status_word(self),
            self == Status::Off ==> r@ == "off"@,
            self == Status::Info ==> r@ == "info"@,
            self == Status::Nominal ==> r@ == "ok"@,
            self == Status::Warning ==> r@ == "warning"@,
            self == Status::Error ==> r@ == "error"@,
    {
        match self {
            Status::Off => "off",
            Status::Info => "info",
            Status::Nominal => "ok",
            Status::Warning => "warning",
            Status::Error => "error",
        }
    }
}

/// The state of a lamp.
pub struct StatusDotView {
    pub text: Seq<char>,
    pub enabled: bool,
    pub pulse: bool,
    pub status: Status,
}

/// A status lamp.
#[derive(Debug)]
pub struct StatusDot {
    /// Label text (may be empty).
    pub text: String,
    /// When false the lamp renders muted.
    pub enabled: bool,
    /// Halo ring for active-attention states.
    pub pulse: bool,
    status: Status,
}

impl View for StatusDot {
    type V = StatusDotView;

    closed spec fn view(&self) -> StatusDotView {
        StatusDotView { text: self.text@, enabled: self.enabled, pulse: self.pulse, status: self.status }
    }
}

impl StatusDot {
    /// A lamp labelled `text` in the `Off` state.
    pub fn new(text: &str) -> (d: StatusDot)
        ensures
            d@ == (StatusDotView { text: text@, enabled: true, pulse: false, status: Status::Off }),
    {
        StatusDot { text: owned(text), enabled: true, pulse: false, status: Status::Off }
    }

    /// Sets the status.
    pub fn status(self, status: Status) -> (d: StatusDot)
        ensures
            d@ == (StatusDotView { status, ..self@ }),
    {
        let mut d = self;
        d.status = status;
        d
    }

    /// Paints a halo ring.
    pub fn pulse(self, pulse: bool) -> (d: StatusDot)
        ensures
            d@ == (StatusDotView { pulse, ..self@ }),
    {
        let mut d = self;
        d.pulse = pulse;
        d
    }

    /// Enables or mutes the lamp.
    pub fn enabled(self, enabled: bool) -> (d: StatusDot)
        ensures
            d@ == (StatusDotView { enabled, ..self@ }),
    {
        let mut d = self;
        d.enabled = enabled;
        d
    }

    /// The label text.
    pub fn text(&self) -> (r: &str)
        ensures
            r@ == self@.text,
    {
        self.text.as_str()
    }

    /// The current status.
    pub fn status_value(&self) -> (r: Status)
        ensures
            r == self@.status,
    {
        self.status
    }

    /// Updates the status.
    pub fn set_status(&mut self, status: Status)
        ensures
            final(self)@ == (StatusDotView { status, ..old(self)@ }),
    {
        self.status = status;
    }

    /// The lamp color for the current status.
    pub fn base_color(&self) -> (r: [u8; 4])
        ensures
            r == status_color(self@.status),
            // Each status shows its own lamp.
            self@.status == Status::Off ==> r@ == seq![160u8, 160, 166, 255],
            self@.status == Status::Info ==> r@ == seq![60u8, 120, 220, 255],
            self@.status == Status::Nominal ==> r@ == seq![46u8, 160, 90, 255],
            self@.status == Status::Warning ==> r@ == seq![220u8, 160, 40, 255],
            self@.status == Status::Error ==> r@ == seq![210u8, 60, 60, 255],
    {
        proof {
            lemma_lamp_colors();
        }
        match self.status {
            Status::Off => OFF,
            Status::Info => INFO,
            Status::Nominal => OK,
            Status::Warning => WARN,
            Status::Error => ERR,
        }
    }

    /// The accessibility node: a status labelled by the text (or
    /// "Status" when empty) whose value is the status word.
    pub fn accessibility(&self) -> (n: AccessNode)
        ensures
            n == (AccessNode {
                label: n.label,
                value: n.value,
                disabled: !self@.enabled,
                ..AccessNode::blank(Role::Status)
            }),
            n.label is Some,
            n.label.unwrap()@ == (if self@.text.len() == 0 {
                "Status"@
            } else {
                self@.text
            }),
            n.value is Some,
            n.value.unwrap()@ == status_word(self@.status),
    {
        let mut node = AccessNode::new(Role::Status);
        node.label = Some(
            if self.text.as_str().is_empty() {
                owned("Status")
            } else {
                self.text.clone()
            },
        );
        node.value = Some(owned(self.status.label()));
        node.disabled = !self.enabled;
        node
    }
}


/// Every status has its own lamp: the five statuses show five different
/// colors, a fault shows red ([210, 60, 60]) and never the nominal
/// green, and nominal shows green ([46, 160, 90]).
pub proof fn lemma_lamp_colors()
    ensures
        status_color(Status::Off)@ == seq![160u8, 160, 166, 255],
        status_color(Status::Info)@ == seq![60u8, 120, 220, 255],
        status_color(Status::Nominal)@ == seq![46u8, 160, 90, 255],
        status_color(Status::Warning)@ == seq![220u8, 160, 40, 255],
        status_color(Status::Error)@ == seq![210u8, 60, 60, 255],
        forall|a: Status, b: Status| a != b ==> #[trigger] status_color(a)@ != #[trigger] status_color(b)@,
{
    assert(OFF@ =~= seq![160u8, 160, 166, 255]);
    assert(INFO@ =~= seq![60u8, 120, 220, 255]);
    assert(OK@ =~= seq![46u8, 160, 90, 255]);
    assert(WARN@ =~= seq![220u8, 160, 40, 255]);
    assert(ERR@ =~= seq![210u8, 60, 60, 255]);
    assert forall|a: Status, b: Status| a != b implies #[trigger] status_color(a)@ != #[trigger] status_color(b)@ by {
        assert(status_color(a)@[0] != status_color(b)@[0] || status_color(a)@[1] != status_color(b)@[1]
            || status_color(a)@[2] != status_color(b)@[2]);
    }
}

} // verus!
