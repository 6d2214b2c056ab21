//! `Steps`: a wizard progress indicator — numbered step nodes joined by
//! lines, each with a label and optional description. Steps advance
//! programmatically; completed steps can be clicked (or reached with
//! the arrow keys and activated with `Enter`/`Space`) to navigate
//! back, reported through [`Steps::take_navigated`].

use vstd::prelude::*;

use crate::access::{AccessNode, Role};
use crate::event::{key_of, EventResponse, Key, PointerButton};
use crate::text::{decimal, opt_text, owned, push_decimal, push_str};

verus! {

/// One wizard step.
#[derive(Debug)]
pub struct Step {
    /// The step's label.
    pub label: String,
    /// Optional secondary line under the label.
    pub description: Option<String>,
}

impl Step {
    /// A step with a label and no description.
    pub fn new(label: &str) -> (s: Step)
        ensures
            s.label@ == label@,
            s.description is None,
    {
        Step { label: owned(label), description: None }
    }

    /// Sets the description line.
    pub fn description(self, text: &str) -> (s: Step)
        ensures
            s.label == self.label,
            s.description is Some,
            s.description.unwrap()@ == text@,
    {
        let mut s = self;
        s.description = Some(owned(text));
        s
    }
}

/// The state of a wizard indicator.
pub struct StepsView {
    pub labels: Seq<Seq<char>>,
    /// Each step's description line, if it has one.
    pub descriptions: Seq<Option<Seq<char>>>,
    pub current: usize,
    pub clickable_completed: bool,
    pub highlighted: Option<usize>,
    pub navigated: Option<usize>,
}

/// A horizontal wizard progress indicator.
#[derive(Debug)]
pub struct Steps {
    steps: Vec<Step>,
    current: usize,
    clickable_completed: bool,
    highlighted: Option<usize>,
    navigated: Option<usize>,
}

impl View for Steps {
    type V = StepsView;

    closed spec fn view(&self) -> StepsView {
        StepsView {
            labels: self.steps@.map_values(|s: Step| s.label@),
            descriptions: self.steps@.map_values(|s: Step| opt_text(s.description)),
            current: self.current,
            clickable_completed: self.clickable_completed,
            highlighted: self.highlighted,
            navigated: self.navigated,
        }
    }
}

/// `index` clamped to the last of `n` steps (0 when there are none).
pub open spec fn clamp_step(index: int, n: nat) -> usize {
    if n == 0 {
        0
    } else if index < n {
        index as usize
    } else {
        (n - 1) as usize
    }
}

impl StepsView {
    /// Whether step `i` is a navigation target: a completed step while
    /// completed steps are clickable.
    pub open spec fn navigable(self, i: int) -> bool {
        self.clickable_completed && 0 <= i < self.current
    }

    /// The current step lies within the list.
    pub open spec fn wf(self) -> bool {
        &&& self.labels.len() <= usize::MAX
        &&& self.current == clamp_step(self.current as int, self.labels.len())
    }

    /// Highlight after an arrow key: one completed step further
    /// (`forward`) or back, staying within the completed steps.
    pub open spec fn arrow_target(self, forward: bool) -> usize {
        let pos: int = match self.highlighted {
            Some(h) => if h < self.current {
                h as int
            } else {
                -1
            },
            None => -1,
        };
        if forward {
            if pos + 1 < self.current {
                (pos + 1) as usize
            } else {
                (self.current - 1) as usize
            }
        } else {
            if pos - 1 > 0 {
                (pos - 1) as usize
            } else {
                0
            }
        }
    }
}

impl Steps {
    #[verifier::type_invariant]
    closed spec fn inv(self) -> bool {
        self@.wf()
    }

    /// An empty indicator whose completed steps are clickable.
    pub fn new() -> (s: Steps)
        ensures
            s@ == (StepsView {
                labels: Seq::empty(),
                descriptions: Seq::empty(),
                current: 0,
                clickable_completed: true,
                highlighted: None,
                navigated: None,
            }),
    {
        let s = Steps {
            steps: Vec::new(),
            current: 0,
            clickable_completed: true,
            highlighted: None,
            navigated: None,
        };
        assert(s@.labels =~= Seq::<Seq<char>>::empty());
        assert(s@.descriptions =~= Seq::<Option<Seq<char>>>::empty());
        s
    }

    /// Replaces the steps with plain labelled steps; the current step is
    /// clamped into the new list.
    pub fn steps(self, labels: Vec<&str>) -> (s: Steps)
        ensures
            s@.labels == labels@.map_values(|l: &str| l@),
            s@.descriptions == Seq::new(labels.len() as nat, |j: int| None::<Seq<char>>),
            s@.current == clamp_step(self@.current as int, labels.len() as nat),
            s@.clickable_completed == self@.clickable_completed,
            s@.highlighted == self@.highlighted,
            s@.navigated == self@.navigated,
    {
        let mut list: Vec<Step> = Vec::new();
        let mut k: usize = 0;
        while k < labels.len()
            invariant
                k <= labels.len(),
                list.len() == k,
                forall|j: int| 0 <= j < k ==> (#[trigger] list@[j]).label@ == labels@[j]@,
                forall|j: int| 0 <= j < k ==> (#[trigger] list@[j]).description is None,
            decreases labels.len() - k,
        {
            list.push(Step::new(labels[k]));
            k = k + 1;
        }
        let s = self.steps_full(list);
        assert(s@.labels =~= labels@.map_values(|l: &str| l@));
        assert(s@.descriptions =~= Seq::new(labels.len() as nat, |j: int| None::<Seq<char>>));
        s
    }

    /// Replaces the steps with full [`Step`] values; the current step is
    /// clamped into the new list.
    pub fn steps_full(self, steps: Vec<Step>) -> (s: Steps)
        ensures
            s@.labels == steps@.map_values(|st: Step| st.label@),
            s@.descriptions == steps@.map_values(|st: Step| opt_text(st.description)),
            s@.current == clamp_step(self@.current as int, steps.len() as nat),
            s@.clickable_completed == self@.clickable_completed,
            s@.highlighted == self@.highlighted,
            s@.navigated == self@.navigated,
    {
        proof {
            use_type_invariant(&self);
        }
        let last = steps.len().saturating_sub(1);
        let current = if self.current > last {
            last
        } else {
            self.current
        };
        Steps {
            steps,
            current,
            clickable_completed: self.clickable_completed,
            highlighted: self.highlighted,
            navigated: self.navigated,
        }
    }

    /// The full step at `i`, if any.
    pub fn step_at(&self, i: usize) -> (r: Option<&Step>)
        ensures
            i < self@.labels.len() ==> r is Some && r.unwrap().label@ == self@.labels[i as int]
                && opt_text(r.unwrap().description) == self@.descriptions[i as int],
            i >= self@.labels.len() ==> r is None,
    {
        if i < self.steps.len() {
            Some(&self.steps[i])
        } else {
            None
        }
    }

    /// Builder form of [`Steps::set_current`].
    pub fn current(self, index: usize) -> (s: Steps)
        ensures
            s@ == (StepsView { current: clamp_step(index as int, self@.labels.len()), ..self@ }),
    {
        let mut s = self;
        s.set_current(index);
        s
    }

    /// Whether completed steps are clickable.
    pub fn clickable_completed(self, clickable: bool) -> (s: Steps)
        ensures
            s@ == (StepsView { clickable_completed: clickable, ..self@ }),
    {
        proof {
            use_type_invariant(&self);
        }
        let mut s = self;
        s.clickable_completed = clickable;
        s
    }

    /// Number of steps.
    pub fn step_count(&self) -> (r: usize)
        ensures
            r == self@.labels.len(),
    {
        self.steps.len()
    }

    /// Index of the in-progress step.
    pub fn current_step(&self) -> (r: usize)
        ensures
            r == self@.current,
            self@.wf(),
    {
        proof {
            use_type_invariant(self);
        }
        self.current
    }

    /// Sets the current step, clamped into the list.
    pub fn set_current(&mut self, index: usize)
        ensures
            final(self)@ == (StepsView {
                current: clamp_step(index as int, old(self)@.labels.len()),
                ..old(self)@
            }),
    {
        proof {
            use_type_invariant(&*self);
        }
        let last = self.steps.len().saturating_sub(1);
        self.current = if index < last {
            index
        } else {
            last
        };
    }

    /// Advances to the next step; no-op on the last one.
    pub fn advance(&mut self)
        ensures
            final(self)@ == (StepsView {
                current: clamp_step(old(self)@.current + 1, old(self)@.labels.len()),
                ..old(self)@
            }),
    {
        proof {
            use_type_invariant(&*self);
        }
        let next = if self.current < usize::MAX {
            self.current + 1
        } else {
            self.current
        };
        self.set_current(next);
    }

    /// Drains a completed-step activation: the index the user wants to
    /// go back to.
    pub fn take_navigated(&mut self) -> (r: Option<usize>)
        ensures
            r == old(self)@.navigated,
            final(self)@ == (StepsView { navigated: None, ..old(self)@ }),
    {
        proof {
            use_type_invariant(&*self);
        }
        let r = self.navigated;
        self.navigated = None;
        r
    }

    /// Whether step `index` is a navigation target.
    fn navigable(&self, index: usize) -> (r: bool)
        ensures
            r == self@.navigable(index as int),
    {
        self.clickable_completed && index < self.current
    }

    /// The pointer moved; `hit` is the step node under it, if any. Only
    /// navigable steps highlight.
    pub fn pointer_moved(&mut self, hit: Option<usize>) -> (r: EventResponse)
        ensures
            ({
                let h = match hit {
                    Some(i) => if old(self)@.navigable(i as int) {
                        Some(i)
                    } else {
                        None
                    },
                    None => None,
                };
                &&& final(self)@ == (StepsView { highlighted: h, ..old(self)@ })
                &&& r == (if h != old(self)@.highlighted {
                    EventResponse::RequestRepaint
                } else {
                    EventResponse::Handled
                })
            }),
    {
        proof {
            use_type_invariant(&*self);
        }
        let h = match hit {
            Some(i) => if self.navigable(i) {
                Some(i)
            } else {
                None
            },
            None => None,
        };
        let same = match (h, self.highlighted) {
            (Some(a), Some(b)) => a == b,
            (None, None) => true,
            _ => false,
        };
        if !same {
            self.highlighted = h;
            return EventResponse::RequestRepaint;
        }
        EventResponse::Handled
    }

    /// The pointer left the widget: the highlight clears.
    pub fn pointer_leave(&mut self) -> (r: EventResponse)
        ensures
            final(self)@ == (StepsView { highlighted: None, ..old(self)@ }),
            r == EventResponse::RequestRepaint,
    {
        proof {
            use_type_invariant(&*self);
        }
        self.highlighted = None;
        EventResponse::RequestRepaint
    }

    /// A pointer press on step node `hit`: a primary press on a
    /// navigable step requests navigation to it.
    pub fn pointer_pressed(&mut self, button: PointerButton, hit: Option<usize>) -> (r:
        EventResponse)
        ensures
            button == PointerButton::Primary && hit is Some && old(self)@.navigable(
                hit.unwrap() as int,
            ) ==> final(self)@ == (StepsView { navigated: hit, ..old(self)@ }) && r
                == EventResponse::Handled,
            !(button == PointerButton::Primary && hit is Some && old(self)@.navigable(
                hit.unwrap() as int,
            )) ==> final(self)@ == old(self)@ && r == EventResponse::Ignored,
    {
        proof {
            use_type_invariant(&*self);
        }
        match button {
            PointerButton::Primary => {
                if let Some(i) = hit {
                    if self.navigable(i) {
                        self.navigated = Some(i);
                        return EventResponse::Handled;
                    }
                }
                EventResponse::Ignored
            },
            _ => EventResponse::Ignored,
        }
    }

    /// A key press: `Enter`/`Space` navigate to the highlighted step,
    /// `ArrowLeft`/`ArrowRight` move the highlight among the completed
    /// steps.
    pub fn key_pressed(&mut self, key: &str) -> (r: EventResponse)
        ensures
            ({
                let v = old(self)@;
                let k = key_of(key@);
                if k == Key::Enter || k == Key::Space || k == Key::Blank {
                    if v.highlighted is Some && v.navigable(v.highlighted.unwrap() as int) {
                        final(self)@ == (StepsView { navigated: v.highlighted, ..v }) && r
                            == EventResponse::Handled
                    } else {
                        final(self)@ == v && r == EventResponse::Ignored
                    }
                } else if k == Key::ArrowLeft || k == Key::ArrowRight {
                    if !v.clickable_completed || v.current == 0 {
                        final(self)@ == v && r == EventResponse::Ignored
                    } else {
                        final(self)@ == (StepsView {
                            highlighted: Some(v.arrow_target(k == Key::ArrowRight)),
                            ..v
                        }) && r == EventResponse::RequestRepaint
                    }
                } else {
                    final(self)@ == v && r == EventResponse::Ignored
                }
            }),
            // Arrow keys move the highlight one completed step at a time.
            key_of(key@) == Key::ArrowLeft && old(self)@.clickable_completed
                && old(self)@.highlighted is Some && 0 < old(self)@.highlighted.unwrap() < old(
                self,
            )@.current ==> final(self)@.highlighted == Some(
                (old(self)@.highlighted.unwrap() - 1) as usize,
            ),
            key_of(key@) == Key::ArrowRight && old(self)@.clickable_completed
                && old(self)@.highlighted is Some && old(self)@.highlighted.unwrap() + 1 < old(
                self,
            )@.current ==> final(self)@.highlighted == Some(
                (old(self)@.highlighted.unwrap() + 1) as usize,
            ),
            (key_of(key@) == Key::ArrowLeft || key_of(key@) == Key::ArrowRight)
                && old(self)@.clickable_completed && old(self)@.current > 0 ==> final(self)@.highlighted is Some
                && final(self)@.highlighted.unwrap() < old(self)@.current,
    {
        proof {
            use_type_invariant(&*self);
        }
        let k = Key::from_name(key);
        match k {
            Key::Enter | Key::Space | Key::Blank => {
                if let Some(i) = self.highlighted {
                    if self.navigable(i) {
                        self.navigated = Some(i);
                        return EventResponse::Handled;
                    }
                }
                EventResponse::Ignored
            },
            Key::ArrowLeft | Key::ArrowRight => {
                // The targets are the completed steps 0..current.
                if !self.clickable_completed || self.current == 0 {
                    return EventResponse::Ignored;
                }
                let pos: Option<usize> = match self.highlighted {
                    Some(h) => if h < self.current {
                        Some(h)
                    } else {
                        None
                    },
                    None => None,
                };
                let next = match k {
                    Key::ArrowRight => match pos {
                        Some(p) => if p + 1 < self.current {
                            p + 1
                        } else {
                            self.current - 1
                        },
                        None => 0,
                    },
                    _ => match pos {
                        Some(p) => if p > 1 {
                            p - 1
                        } else {
                            0
                        },
                        None => 0,
                    },
                };
                self.highlighted = Some(next);
                EventResponse::RequestRepaint
            },
            _ => EventResponse::Ignored,
        }
    }

    /// The accessibility node: a group labelled "Step k of n".
    pub fn accessibility(&self) -> (n: AccessNode)
        ensures
            n == (AccessNode { label: n.label, ..AccessNode::blank(Role::Group) }),
            n.label is Some,
            n.label.unwrap()@ == "Step "@ + decimal(self@.current as nat + 1) + " of "@ + decimal(
                self@.labels.len(),
            ),
    {
        proof {
            use_type_invariant(self);
        }
        let mut label = owned("Step ");
        push_decimal(&mut label, self.current as u128 + 1);
        push_str(&mut label, " of ");
        push_decimal(&mut label, self.steps.len() as u128);
        let mut node = AccessNode::new(Role::Group);
        node.label = Some(label);
        node
    }
}

/// Whatever is done to it, an indicator keeps its current step within
/// the list: setting, advancing and replacing the steps all clamp.
pub proof fn lemma_current_in_range(index: int, n: nat)
    requires
        index >= 0,
        n <= usize::MAX,
    ensures
        n > 0 ==> clamp_step(index, n) < n,
        n == 0 ==> clamp_step(index, n) == 0,
        index < n ==> clamp_step(index, n) == index,
        clamp_step(clamp_step(index, n) as int, n) == clamp_step(index, n),
{
}

/// Advancing from the last step stays there; otherwise it moves one
/// step on.
pub proof fn lemma_advance(v: StepsView)
    requires
        v.wf(),
    ensures
        v.labels.len() > 0 && v.current + 1 < v.labels.len() ==> clamp_step(v.current + 1, v.labels.len())
            == v.current + 1,
        v.labels.len() > 0 && v.current + 1 >= v.labels.len() ==> clamp_step(v.current + 1, v.labels.len())
            == v.current,
{
}


/// Arrow keys walk the completed steps one at a time: from a
/// highlighted completed step `h`, the left arrow goes to `h - 1` (and
/// stays on the first step), the right arrow to `h + 1` (and stays on
/// the last completed step); either way the highlight lands on a
/// completed step.
pub proof fn lemma_arrows_step_by_one(v: StepsView, h: usize)
    requires
        v.clickable_completed,
        v.highlighted == Some(h),
        h < v.current,
    ensures
        h > 0 ==> v.arrow_target(false) == h - 1,
        h == 0 ==> v.arrow_target(false) == 0,
        h + 1 < v.current ==> v.arrow_target(true) == h + 1,
        h + 1 == v.current ==> v.arrow_target(true) == h,
        v.arrow_target(false) < v.current,
        v.arrow_target(true) < v.current,
{
}

} // verus!
