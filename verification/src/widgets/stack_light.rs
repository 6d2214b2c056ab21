//! `StackLight` — an andon signal tower: a vertical stack of
//! independently lit colored lamps. A stack light shows a combination
//! of states (amber flashing over green). Clicking a lamp toggles it
//! and parks its index for [`StackLight::take_changed`]; flashing lamps
//! blink on `tick`.

use vstd::prelude::*;

use crate::access::{AccessNode, Role};
use crate::event::{EventResponse, PointerButton};
use crate::text::{joined, lemma_joined_push, owned, push_str};

verus! {

/// Length of one blink cycle in nanoseconds (1.4 Hz).
pub const BLINK_PERIOD_NS: u64 = 714_285_714;

/// Part of the blink cycle, from its start, during which flashing
/// lamps are on (55 %).
pub const BLINK_ON_NS: u64 = 392_857_143;

/// One lamp in a [`StackLight`] tower.
#[derive(Debug)]
pub struct Lamp {
    /// Accessibility label.
    pub label: String,
    /// Lit color (RGBA).
    pub color: [u8; 4],
    /// Whether the lamp is on.
    pub lit: bool,
    /// Whether the lamp blinks when lit.
    pub flashing: bool,
}

impl Lamp {
    /// An unlit, steady lamp.
    pub fn new(label: &str, color: [u8; 4]) -> (l: Lamp)
        ensures
            l.label@ == label@,
            l.color == color,
            !l.lit,
            !l.flashing,
    {
        Lamp { label: owned(label), color, lit: false, flashing: false }
    }

    /// Sets whether the lamp starts lit.
    pub fn lit(self, lit: bool) -> (l: Lamp)
        ensures
            l.label == self.label,
            l.color == self.color,
            l.lit == lit,
            l.flashing == self.flashing,
    {
        let mut l = self;
        l.lit = lit;
        l
    }

    /// Sets whether the lamp blinks when lit.
    pub fn flashing(self, flashing: bool) -> (l: Lamp)
        ensures
            l.label == self.label,
            l.color == self.color,
            l.lit == self.lit,
            l.flashing == flashing,
    {
        let mut l = self;
        l.flashing = flashing;
        l
    }
}

/// The state of one lamp.
pub struct LampView {
    pub label: Seq<char>,
    pub color: [u8; 4],
    pub lit: bool,
    pub flashing: bool,
}

/// The state of one lamp as plain values.
pub open spec fn lamp_view(l: Lamp) -> LampView {
    LampView { label: l.label@, color: l.color, lit: l.lit, flashing: l.flashing }
}

/// The state of a tower.
pub struct StackLightView {
    pub label: Seq<char>,
    pub lamps: Seq<LampView>,
    pub changed: Option<usize>,
    /// Position in the blink cycle, in nanoseconds.
    pub blink: u64,
}

/// An andon signal tower.
#[derive(Debug)]
pub struct StackLight {
    /// Accessibility label.
    pub label: String,
    lamps: Vec<Lamp>,
    changed: Option<usize>,
    blink: u64,
}

impl View for StackLight {
    type V = StackLightView;

    closed spec fn view(&self) -> StackLightView {
        StackLightView {
            label: self.label@,
            lamps: self.lamps@.map_values(|l: Lamp| lamp_view(l)),
            changed: self.changed,
            blink: self.blink,
        }
    }
}

/// Lamp `i` with its lit flag set to `lit`; lamps out of range are
/// left alone.
pub open spec fn set_lit(lamps: Seq<LampView>, i: int, lit: bool) -> Seq<LampView> {
    if 0 <= i < lamps.len() {
        lamps.update(i, LampView { lit, ..lamps[i] })
    } else {
        lamps
    }
}

/// Lamp `i` toggled; lamps out of range are left alone.
pub open spec fn toggle_lamps(lamps: Seq<LampView>, i: int) -> Seq<LampView> {
    set_lit(lamps, i, !(0 <= i < lamps.len() && lamps[i].lit))
}

/// Toggling a lamp twice restores the tower.
pub proof fn lemma_toggle_twice(lamps: Seq<LampView>, i: int)
    ensures
        toggle_lamps(toggle_lamps(lamps, i), i) == lamps,
{
    if 0 <= i < lamps.len() {
        assert(toggle_lamps(toggle_lamps(lamps, i), i) =~= lamps);
    }
}

/// After setting lamp `i`, reading it gives what was written, and no
/// other lamp changed.
pub proof fn lemma_set_then_read(lamps: Seq<LampView>, i: int, lit: bool)
    requires
        0 <= i < lamps.len(),
    ensures
        set_lit(lamps, i, lit)[i].lit == lit,
        set_lit(lamps, i, lit).len() == lamps.len(),
        forall|j: int| 0 <= j < lamps.len() && j != i ==> set_lit(lamps, i, lit)[j] == lamps[j],
{
}

/// Whether any lamp is lit and flashing.
pub open spec fn any_flashing(lamps: Seq<LampView>) -> bool {
    exists|i: int| 0 <= i < lamps.len() && (#[trigger] lamps[i]).lit && lamps[i].flashing
}

/// Labels of the lit lamps, top to bottom.
pub open spec fn lit_labels(lamps: Seq<LampView>) -> Seq<Seq<char>>
    decreases lamps.len(),
{
    if lamps.len() == 0 {
        Seq::empty()
    } else if lamps.last().lit {
        lit_labels(lamps.drop_last()).push(lamps.last().label)
    } else {
        lit_labels(lamps.drop_last())
    }
}

/// The spoken description of the lamps.
pub open spec fn lamps_description(lamps: Seq<LampView>) -> Seq<char> {
    if lit_labels(lamps).len() == 0 {
        "all lamps off"@
    } else {
        "lit: "@ + joined(lit_labels(lamps), ", "@)
    }
}

impl StackLight {
    /// An empty tower.
    pub fn new() -> (t: StackLight)
        ensures
            t@.label == "Signal tower"@,
            t@.lamps.len() == 0,
            t@.changed.is_none(),
            t@.blink == 0,
    {
        let t = StackLight {
            label: owned("Signal tower"),
            lamps: Vec::new(),
            changed: None,
            blink: 0,
        };
        assert(t@.lamps =~= Seq::<LampView>::empty());
        t
    }

    /// Sets the accessibility label.
    pub fn label(self, label: &str) -> (t: StackLight)
        ensures
            t@ == (StackLightView { label: label@, ..self@ }),
    {
        let mut t = self;
        t.label = owned(label);
        t
    }

    /// Appends a lamp below the existing ones.
    pub fn lamp(self, lamp: Lamp) -> (t: StackLight)
        ensures
            t@ == (StackLightView { lamps: self@.lamps.push(lamp_view(lamp)), ..self@ }),
    {
        let mut t = self;
        t.lamps.push(lamp);
        assert(t@.lamps =~= self@.lamps.push(lamp_view(lamp)));
        t
    }

    /// Number of lamps.
    pub fn lamp_count(&self) -> (r: usize)
        ensures
            r == self@.lamps.len(),
    {
        self.lamps.len()
    }

    /// Lamp `i`, if there is one.
    pub fn lamp_at(&self, i: usize) -> (r: Option<&Lamp>)
        ensures
            i < self@.lamps.len() ==> r is Some && lamp_view(*r.unwrap()) == self@.lamps[i as int],
            i >= self@.lamps.len() ==> r is None,
    {
        if i < self.lamps.len() {
            Some(&self.lamps[i])
        } else {
            None
        }
    }

    /// Whether lamp `i` is lit (false when there is no such lamp).
    pub fn lit(&self, i: usize) -> (r: bool)
        ensures
            r == (i < self@.lamps.len() && self@.lamps[i as int].lit),
    {
        if i < self.lamps.len() {
            self.lamps[i].lit
        } else {
            false
        }
    }

    /// Sets lamp `i` lit or unlit; no-op without such a lamp.
    pub fn set(&mut self, i: usize, lit: bool)
        ensures
            final(self)@ == (StackLightView { lamps: set_lit(old(self)@.lamps, i as int, lit), ..old(self)@ }),
    {
        if i < self.lamps.len() {
            self.lamps[i].lit = lit;
            assert(self@.lamps =~= set_lit(old(self)@.lamps, i as int, lit));
        }
    }

    /// Toggles lamp `i`; no-op without such a lamp.
    pub fn toggle(&mut self, i: usize)
        ensures
            final(self)@ == (StackLightView {
                lamps: toggle_lamps(old(self)@.lamps, i as int),
                ..old(self)@
            }),
    {
        if i < self.lamps.len() {
            let now = self.lamps[i].lit;
            self.lamps[i].lit = !now;
            assert(self@.lamps =~= set_lit(old(self)@.lamps, i as int, !now));
        }
    }

    /// Drains the index of the last lamp toggled by a click.
    pub fn take_changed(&mut self) -> (r: Option<usize>)
        ensures
            r == old(self)@.changed,
            final(self)@ == (StackLightView { changed: None, ..old(self)@ }),
    {
        self.changed.take()
    }

    /// A pointer press. `inside` tells whether it landed in the tower,
    /// `lamp` which lamp rectangle it hit. A primary press on a lamp
    /// toggles it and parks its index.
    pub fn pointer_pressed(&mut self, button: PointerButton, inside: bool, lamp: Option<usize>) -> (r:
        EventResponse)
        ensures
            button != PointerButton::Primary || !inside ==> final(self)@ == old(self)@ && r
                == EventResponse::Ignored,
            button == PointerButton::Primary && inside && lamp is None ==> final(self)@ == old(
                self,
            )@ && r == EventResponse::Handled,
            button == PointerButton::Primary && inside && lamp is Some ==> {
                let i = lamp.unwrap() as int;
                &&& final(self)@.lamps == toggle_lamps(old(self)@.lamps, i)
                &&& final(self)@.changed == lamp
                &&& final(self)@.label == old(self)@.label
                &&& final(self)@.blink == old(self)@.blink
                &&& r == EventResponse::RequestRepaint
            },
    {
        match button {
            PointerButton::Primary => {
                if !inside {
                    return EventResponse::Ignored;
                }
                match lamp {
                    Some(i) => {
                        self.toggle(i);
                        self.changed = Some(i);
                        EventResponse::RequestRepaint
                    },
                    None => EventResponse::Handled,
                }
            },
            _ => EventResponse::Ignored,
        }
    }

    /// Advances the blink cycle by `dt_ns` nanoseconds while some lamp
    /// is lit and flashing; returns whether the tower needs frames.
    pub fn tick(&mut self, dt_ns: u64) -> (r: bool)
        ensures
            r == any_flashing(old(self)@.lamps),
            r ==> final(self)@ == (StackLightView {
                blink: ((old(self)@.blink + dt_ns) % (BLINK_PERIOD_NS as int)) as u64,
                ..old(self)@
            }),
            !r ==> final(self)@ == old(self)@,
    {
        let n = self.lamps.len();
        let mut any = false;
        let mut i: usize = 0;
        while i < n
            invariant
                n == self.lamps.len(),
                i <= n,
                any == exists|j: int| 0 <= j < i && (#[trigger] self@.lamps[j]).lit && self@.lamps[j].flashing,
            decreases n - i,
        {
            if self.lamps[i].lit && self.lamps[i].flashing {
                any = true;
                assert(self@.lamps[i as int].lit);
            }
            i = i + 1;
        }
        if !any {
            return false;
        }
        self.blink = ((self.blink as u128 + dt_ns as u128) % (BLINK_PERIOD_NS as u128)) as u64;
        true
    }

    /// Whether lamp `i` shows its color now: lit, and, when flashing,
    /// in the on part of the blink cycle.
    pub fn lamp_visible(&self, i: usize) -> (r: bool)
        ensures
            r == (i < self@.lamps.len() && self@.lamps[i as int].lit && (!self@.lamps[i as int].flashing
                || self@.blink < BLINK_ON_NS)),
    {
        if i < self.lamps.len() {
            self.lamps[i].lit && (!self.lamps[i].flashing || self.blink < BLINK_ON_NS)
        } else {
            false
        }
    }

    /// The accessibility node: an image labelled with the tower's name
    /// and which lamps are lit.
    pub fn accessibility(&self) -> (n: AccessNode)
        ensures
            n == (AccessNode { label: n.label, ..AccessNode::blank(Role::Image) }),
            n.label is Some,
            n.label.unwrap()@ == self@.label + " — "@ + lamps_description(self@.lamps),
    {
        let ghost lamps = self@.lamps;
        let mut lit_text = String::new();
        let mut count: usize = 0;
        let n = self.lamps.len();
        let mut i: usize = 0;
        while i < n
            invariant
                n == self.lamps.len(),
                lamps == self@.lamps,
                i <= n,
                count <= i,
                count == lit_labels(lamps.take(i as int)).len(),
                lit_text@ == joined(lit_labels(lamps.take(i as int)), ", "@),
            decreases n - i,
        {
            proof {
                assert(lamps.take(i + 1).drop_last() =~= lamps.take(i as int));
                assert(lamps.take(i + 1).last() == lamps[i as int]);
            }
            if self.lamps[i].lit {
                proof {
                    lemma_joined_push(lit_labels(lamps.take(i as int)), ", "@, lamps[i as int].label);
                }
                if count > 0 {
                    push_str(&mut lit_text, ", ");
                }
                push_str(&mut lit_text, self.lamps[i].label.as_str());
                assert(lit_text@ =~= joined(lit_labels(lamps.take(i + 1)), ", "@));
                count = count + 1;
            }
            i = i + 1;
        }
        proof {
            assert(lamps.take(n as int) =~= lamps);
        }
        let mut label = self.label.clone();
        push_str(&mut label, " — ");
        if count == 0 {
            push_str(&mut label, "all lamps off");
        } else {
            push_str(&mut label, "lit: ");
            push_str(&mut label, lit_text.as_str());
        }
        let mut node = AccessNode::new(Role::Image);
        node.label = Some(label);
        proof {
            assert(node.label.unwrap()@ =~= self@.label + " — "@ + lamps_description(self@.lamps));
        }
        node
    }
}

} // verus!
