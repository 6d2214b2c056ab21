//! `Stopwatch`: an elapsed-time face with start/stop, laps and reset.
//! Time advances only through `tick` while running; `Space`/`Enter`
//! toggle, `L` records a lap split, `R` resets. Durations are counted
//! in nanoseconds.

use vstd::prelude::*;

use crate::access::{AccessNode, Role};
use crate::event::{key_of, EventResponse, Key};
use crate::text::{decimal, owned, push_char, push_decimal, push_str, push_two_digits, two_digits};

verus! {

/// Nanoseconds per second.
pub const NS_PER_SEC: u128 = 1_000_000_000;

/// The longest duration the clock can hold, in nanoseconds: `u64::MAX`
/// seconds and 999 999 999 nanoseconds.
pub const MAX_NS: u128 = 18_446_744_073_709_551_615_999_999_999;

/// The face text for `d` nanoseconds: `MM:SS.cc`, or `H:MM:SS` from
/// the first hour on.
pub open spec fn face_text(d: nat) -> Seq<char> {
    let secs = d / (NS_PER_SEC as nat);
    let cs = (d % (NS_PER_SEC as nat)) / 10_000_000;
    let hours = secs / 3600;
    let mins = (secs / 60) % 60;
    let s = secs % 60;
    if hours > 0 {
        decimal(hours) + ":"@ + two_digits(mins) + ":"@ + two_digits(s)
    } else {
        two_digits(mins) + ":"@ + two_digits(s) + "."@ + two_digits(cs)
    }
}

/// The state of a stopwatch.
pub struct StopwatchView {
    pub label: Seq<char>,
    /// Elapsed nanoseconds.
    pub elapsed: nat,
    pub running: bool,
    /// Lap splits, oldest first.
    pub laps: Seq<u128>,
    pub lapped: Option<u128>,
}

/// A stopwatch.
#[derive(Debug)]
pub struct Stopwatch {
    /// Accessibility label.
    pub label: String,
    elapsed: u128,
    running: bool,
    laps: Vec<u128>,
    lapped: Option<u128>,
}

impl View for Stopwatch {
    type V = StopwatchView;

    closed spec fn view(&self) -> StopwatchView {
        StopwatchView {
            label: self.label@,
            elapsed: self.elapsed as nat,
            running: self.running,
            laps: self.laps@,
            lapped: self.lapped,
        }
    }
}

impl StopwatchView {
    /// Every recorded time fits the clock.
    pub open spec fn wf(self) -> bool {
        &&& self.elapsed <= MAX_NS
        &&& forall|i: int| 0 <= i < self.laps.len() ==> #[trigger] self.laps[i] <= MAX_NS
    }
}

impl Stopwatch {
    #[verifier::type_invariant]
    closed spec fn inv(self) -> bool {
        self@.wf()
    }

    /// A stopped stopwatch at zero.
    pub fn new() -> (s: Stopwatch)
        ensures
            s@ == (StopwatchView {
                label: "Stopwatch"@,
                elapsed: 0,
                running: false,
                laps: Seq::empty(),
                lapped: None,
            }),
    {
        let s = Stopwatch {
            label: owned("Stopwatch"),
            elapsed: 0,
            running: false,
            laps: Vec::new(),
            lapped: None,
        };
        assert(s@.laps =~= Seq::<u128>::empty());
        s
    }

    /// Sets the accessibility label.
    pub fn label(self, label: &str) -> (s: Stopwatch)
        ensures
            s@ == (StopwatchView { label: label@, ..self@ }),
    {
        proof {
            use_type_invariant(&self);
        }
        let mut s = self;
        s.label = owned(label);
        s
    }

    /// Starts (or leaves stopped) the timer.
    pub fn running(self, on: bool) -> (s: Stopwatch)
        ensures
            s@ == (StopwatchView { running: on, ..self@ }),
    {
        proof {
            use_type_invariant(&self);
        }
        let mut s = self;
        s.running = on;
        s
    }

    /// Accumulated elapsed nanoseconds.
    pub fn elapsed(&self) -> (r: u128)
        ensures
            r == self@.elapsed,
            r <= MAX_NS,
    {
        proof {
            use_type_invariant(self);
        }
        self.elapsed
    }

    /// Whether time accumulates.
    pub fn is_running(&self) -> (r: bool)
        ensures
            r == self@.running,
    {
        self.running
    }

    /// Starts the timer.
    pub fn start(&mut self)
        ensures
            final(self)@ == (StopwatchView { running: true, ..old(self)@ }),
    {
        proof {
            use_type_invariant(&*self);
        }
        self.running = true;
    }

    /// Stops the timer; elapsed time is kept.
    pub fn stop(&mut self)
        ensures
            final(self)@ == (StopwatchView { running: false, ..old(self)@ }),
    {
        proof {
            use_type_invariant(&*self);
        }
        self.running = false;
    }

    /// Toggles start/stop.
    pub fn toggle(&mut self)
        ensures
            final(self)@ == (StopwatchView { running: !old(self)@.running, ..old(self)@ }),
    {
        proof {
            use_type_invariant(&*self);
        }
        self.running = !self.running;
    }

    /// Records the elapsed time as a lap split and parks it for
    /// [`Stopwatch::take_lapped`].
    pub fn lap(&mut self)
        ensures
            final(self)@ == (StopwatchView {
                laps: old(self)@.laps.push(old(self)@.elapsed as u128),
                lapped: Some(old(self)@.elapsed as u128),
                ..old(self)@
            }),
    {
        proof {
            use_type_invariant(&*self);
        }
        let e = self.elapsed;
        let ghost before = self.laps@;
        let mut laps: Vec<u128> = Vec::new();
        std::mem::swap(&mut laps, &mut self.laps);
        laps.push(e);
        proof {
            assert forall|i: int| 0 <= i < laps@.len() implies #[trigger] laps@[i] <= MAX_NS by {
                if i < before.len() {
                    assert(laps@[i] == before[i]);
                }
            }
        }
        self.laps = laps;
        self.lapped = Some(e);
    }

    /// Clears elapsed time and laps; the running state is kept.
    pub fn reset(&mut self)
        ensures
            final(self)@ == (StopwatchView {
                elapsed: 0,
                laps: Seq::empty(),
                lapped: None,
                ..old(self)@
            }),
    {
        proof {
            use_type_invariant(&*self);
        }
        self.laps = Vec::new();
        self.lapped = None;
        self.elapsed = 0;
        assert(self@.laps =~= Seq::<u128>::empty());
    }

    /// Number of laps.
    pub fn lap_count(&self) -> (r: usize)
        ensures
            r == self@.laps.len(),
    {
        self.laps.len()
    }

    /// The split recorded at lap `i`.
    pub fn lap_at(&self, i: usize) -> (r: Option<u128>)
        ensures
            i < self@.laps.len() ==> r == Some(self@.laps[i as int]),
            i >= self@.laps.len() ==> r is None,
    {
        if i < self.laps.len() {
            Some(self.laps[i])
        } else {
            None
        }
    }

    /// Drains the last lap split.
    pub fn take_lapped(&mut self) -> (r: Option<u128>)
        ensures
            r == old(self)@.lapped,
            final(self)@ == (StopwatchView { lapped: None, ..old(self)@ }),
    {
        proof {
            use_type_invariant(&*self);
        }
        let r = self.lapped;
        self.lapped = None;
        r
    }

    /// The face for `d` nanoseconds: `MM:SS.cc`, or `H:MM:SS` past the
    /// hour.
    pub fn fmt_face(d: u128) -> (r: String)
        requires
            d <= MAX_NS,
        ensures
            r@ == face_text(d as nat),
    {
        let secs_total = d / NS_PER_SEC;
        let cs = ((d % NS_PER_SEC) / 10_000_000) as u64;
        assert(secs_total <= u64::MAX);
        let secs_total = secs_total as u64;
        let secs = secs_total % 60;
        let mins = (secs_total / 60) % 60;
        let hours = secs_total / 3600;
        let mut r = String::new();
        if hours > 0 {
            push_decimal(&mut r, hours as u128);
            push_char(&mut r, ':');
            push_two_digits(&mut r, mins as u128);
            push_char(&mut r, ':');
            push_two_digits(&mut r, secs as u128);
        } else {
            push_two_digits(&mut r, mins as u128);
            push_char(&mut r, ':');
            push_two_digits(&mut r, secs as u128);
            push_char(&mut r, '.');
            push_two_digits(&mut r, cs as u128);
        }
        proof {
            reveal_strlit(":");
            reveal_strlit(".");
            if hours > 0 {
                assert(r@ =~= face_text(d as nat));
            } else {
                assert(r@ =~= face_text(d as nat));
            }
        }
        r
    }

    /// The face for the current elapsed time.
    pub fn face(&self) -> (r: String)
        ensures
            r@ == face_text(self@.elapsed),
    {
        proof {
            use_type_invariant(self);
        }
        Self::fmt_face(self.elapsed)
    }

    /// A key press: `" "`/`Enter` toggle, `L` laps, `R` resets.
    pub fn key_pressed(&mut self, key: &str) -> (r: EventResponse)
        ensures
            ({
                let v = old(self)@;
                let k = key_of(key@);
                if k == Key::Blank || k == Key::Enter {
                    final(self)@ == (StopwatchView { running: !v.running, ..v }) && r
                        == EventResponse::RequestRepaint
                } else if k == Key::LetterL {
                    final(self)@ == (StopwatchView {
                        laps: v.laps.push(v.elapsed as u128),
                        lapped: Some(v.elapsed as u128),
                        ..v
                    }) && r == EventResponse::RequestRepaint
                } else if k == Key::LetterR {
                    final(self)@ == (StopwatchView {
                        elapsed: 0,
                        laps: Seq::empty(),
                        lapped: None,
                        ..v
                    }) && r == EventResponse::RequestRepaint
                } else {
                    final(self)@ == v && r == EventResponse::Ignored
                }
            }),
    {
        match Key::from_name(key) {
            Key::Blank | Key::Enter => {
                self.toggle();
                EventResponse::RequestRepaint
            },
            Key::LetterL => {
                self.lap();
                EventResponse::RequestRepaint
            },
            Key::LetterR => {
                self.reset();
                EventResponse::RequestRepaint
            },
            _ => EventResponse::Ignored,
        }
    }

    /// Advances the clock by `dt` nanoseconds while running; returns
    /// whether it ran.
    pub fn tick(&mut self, dt: u128) -> (r: bool)
        requires
            old(self)@.running ==> old(self)@.elapsed + dt <= MAX_NS,
        ensures
            r == old(self)@.running,
            r ==> final(self)@ == (StopwatchView { elapsed: old(self)@.elapsed + dt as nat, ..old(self)@ }),
            !r ==> final(self)@ == old(self)@,
    {
        proof {
            use_type_invariant(&*self);
        }
        if self.running {
            self.elapsed = self.elapsed + dt;
            return true;
        }
        false
    }

    /// The accessibility node: a time labelled with the label and the
    /// face.
    pub fn accessibility(&self) -> (n: AccessNode)
        ensures
            n == (AccessNode { label: n.label, ..AccessNode::blank(Role::Time) }),
            n.label is Some,
            n.label.unwrap()@ == self@.label + " — "@ + face_text(self@.elapsed),
    {
        let mut label = self.label.clone();
        push_str(&mut label, " — ");
        let f = self.face();
        push_str(&mut label, f.as_str());
        let mut node = AccessNode::new(Role::Time);
        node.label = Some(label);
        node
    }
}

} // verus!
