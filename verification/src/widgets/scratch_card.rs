//! `ScratchCard`: a scratch-to-reveal foil over some content.
//!
//! The foil is a grid of [`COLS`] × [`ROWS`] cells; dragging the
//! pointer scratches away the cells under the brush. When the
//! scratched cells reach the reveal threshold (a number of cells: the
//! fewest whose share of the foil reaches the threshold fraction), the foil clears entirely and a reveal is reported by
//! [`ScratchCard::take_revealed`] exactly once. Which cells a brush
//! position covers is worked out by the caller from the card's
//! geometry and handed over as cell indices (row-major).

use vstd::prelude::*;

use crate::access::{AccessNode, Role};
use crate::event::{EventResponse, PointerButton};
use crate::text::{decimal, owned, push_decimal, push_str};

verus! {

/// Foil columns.
pub const COLS: usize = 12;

/// Foil rows.
pub const ROWS: usize = 8;

/// Foil cells.
pub const CELLS: usize = 96;

/// The state of a card.
pub struct ScratchCardView {
    pub label: Seq<char>,
    /// Number of scratched cells that reveals the card.
    pub reveal_cells: usize,
    pub covered: bool,
    /// Which cells are scratched, row-major.
    pub scratched: Seq<bool>,
    pub scratching: bool,
    pub revealed: bool,
    /// A reveal waits to be reported.
    pub reveal_flagged: bool,
}

impl ScratchCardView {
    /// The foil has one flag per cell.
    pub open spec fn wf(self) -> bool {
        self.scratched.len() == CELLS
    }
}

/// A scratch-to-reveal card.
#[derive(Debug)]
pub struct ScratchCard {
    /// Accessibility label.
    pub label: String,
    /// Number of scratched cells that reveals the card.
    pub reveal_cells: usize,
    /// Whether the foil covers the content.
    pub covered: bool,
    scratched: Vec<bool>,
    scratching: bool,
    revealed: bool,
    reveal_flagged: bool,
}

impl View for ScratchCard {
    type V = ScratchCardView;

    closed spec fn view(&self) -> ScratchCardView {
        ScratchCardView {
            label: self.label@,
            reveal_cells: self.reveal_cells,
            covered: self.covered,
            scratched: self.scratched@,
            scratching: self.scratching,
            revealed: self.revealed,
            reveal_flagged: self.reveal_flagged,
        }
    }
}

/// Number of scratched cells.
pub open spec fn count_scratched(s: Seq<bool>) -> nat
    decreases s.len(),
{
    if s.len() == 0 {
        0
    } else {
        count_scratched(s.drop_last()) + if s.last() {
            1nat
        } else {
            0nat
        }
    }
}

/// The progress in cells: all of them once revealed.
pub open spec fn progress_of(v: ScratchCardView) -> nat {
    if v.revealed {
        CELLS as nat
    } else {
        count_scratched(v.scratched)
    }
}

/// `scratched` with every in-range cell of `brush` scratched.
pub open spec fn scratch_cells(scratched: Seq<bool>, brush: Seq<usize>) -> Seq<bool> {
    Seq::new(scratched.len(), |i: int| scratched[i] || brush.contains(i as usize))
}

/// `n` scratched cells reach a threshold of `cells`.
pub open spec fn reaches(n: nat, cells: usize) -> bool {
    n >= cells
}

/// The card after the brush passed over `brush` (or over nothing when
/// the card has no area yet): cells scratched, then a first crossing
/// of the threshold reveals the card.
pub open spec fn scratched_by(v: ScratchCardView, brush: Option<Seq<usize>>) -> ScratchCardView {
    match brush {
        None => v,
        Some(b) => {
            let s = scratch_cells(v.scratched, b);
            if !v.revealed && reaches(count_scratched(s), v.reveal_cells) {
                ScratchCardView {
                    scratched: s,
                    revealed: true,
                    covered: false,
                    reveal_flagged: true,
                    ..v
                }
            } else {
                ScratchCardView { scratched: s, ..v }
            }
        },
    }
}

/// The whole percentage spoken for `n` scratched cells: `n / CELLS`
/// as a percentage, rounded to the nearest whole, ties to even.
pub open spec fn percent_of(n: nat) -> nat {
    let q = n * 100 / (CELLS as nat);
    let r = n * 100 % (CELLS as nat);
    if r * 2 > CELLS || (r * 2 == CELLS && q % 2 == 1) {
        q + 1
    } else {
        q
    }
}

impl ScratchCard {
    /// A covered card revealing at 58 scratched cells (the fewest that
    /// make 60% of the foil).
    pub fn new() -> (c: ScratchCard)
        ensures
            c@ == (ScratchCardView {
                label: "Scratch card"@,
                reveal_cells: 58,
                covered: true,
                scratched: Seq::new(CELLS as nat, |i: int| false),
                scratching: false,
                revealed: false,
                reveal_flagged: false,
            }),
            c@.wf(),
    {
        let mut scratched: Vec<bool> = Vec::new();
        let mut i: usize = 0;
        while i < CELLS
            invariant
                i <= CELLS,
                scratched@ =~= Seq::new(i as nat, |k: int| false),
            decreases CELLS - i,
        {
            scratched.push(false);
            i = i + 1;
        }
        ScratchCard {
            label: owned("Scratch card"),
            reveal_cells: 58,
            covered: true,
            scratched,
            scratching: false,
            revealed: false,
            reveal_flagged: false,
        }
    }

    /// Sets the accessibility label.
    pub fn label(self, label: &str) -> (c: ScratchCard)
        ensures
            c@ == (ScratchCardView { label: label@, ..self@ }),
    {
        let mut c = self;
        c.label = owned(label);
        c
    }

    /// Sets the reveal threshold as the number of scratched cells
    /// that reveals the card, clamped to 5..=96 (the counts that
    /// fractions from 0.05 to 1 of the foil call for).
    pub fn reveal_threshold(self, cells: usize) -> (c: ScratchCard)
        ensures
            c@ == (ScratchCardView {
                reveal_cells: if cells < 5 {
                    5
                } else if cells > CELLS {
                    CELLS
                } else {
                    cells
                },
                ..self@
            }),
    {
        let mut c = self;
        c.reveal_cells = if cells < 5 {
            5
        } else if cells > CELLS {
            CELLS
        } else {
            cells
        };
        c
    }

    /// Number of scratched cells.
    fn count(&self) -> (r: usize)
        requires
            self@.wf(),
        ensures
            r == count_scratched(self@.scratched),
            r <= CELLS,
    {
        let mut n: usize = 0;
        let mut i: usize = 0;
        while i < self.scratched.len()
            invariant
                i <= self.scratched@.len(),
                self.scratched@.len() == CELLS,
                n == count_scratched(self.scratched@.take(i as int)),
                n <= i,
            decreases self.scratched@.len() - i,
        {
            proof {
                assert(self.scratched@.take(i + 1).drop_last() =~= self.scratched@.take(i as int));
            }
            if self.scratched[i] {
                n = n + 1;
            }
            i = i + 1;
        }
        assert(self.scratched@.take(i as int) =~= self.scratched@);
        n
    }

    /// Progress in cells out of [`CELLS`]: the scratched cells, or all
    /// of them once revealed.
    pub fn progress_cells(&self) -> (r: usize)
        requires
            self@.wf(),
        ensures
            r == progress_of(self@),
    {
        if self.revealed {
            CELLS
        } else {
            self.count()
        }
    }

    /// Whether the foil has fully cleared.
    pub fn is_revealed(&self) -> (r: bool)
        ensures
            r == self@.revealed,
    {
        self.revealed
    }

    /// True once after the reveal threshold was crossed.
    pub fn take_revealed(&mut self) -> (r: bool)
        ensures
            r == old(self)@.reveal_flagged,
            final(self)@ == (ScratchCardView { reveal_flagged: false, ..old(self)@ }),
    {
        let r = self.reveal_flagged;
        self.reveal_flagged = false;
        r
    }

    /// Re-covers the card with fresh foil.
    pub fn reset(&mut self)
        requires
            old(self)@.wf(),
        ensures
            final(self)@ == (ScratchCardView {
                scratched: Seq::new(CELLS as nat, |i: int| false),
                covered: true,
                revealed: false,
                reveal_flagged: false,
                scratching: false,
                ..old(self)@
            }),
            final(self)@.wf(),
    {
        let mut i: usize = 0;
        while i < self.scratched.len()
            invariant
                i <= self.scratched@.len(),
                self.scratched@.len() == CELLS,
                self.label@ == old(self)@.label,
                self.reveal_cells == old(self)@.reveal_cells,
                self.covered == old(self)@.covered,
                self.scratching == old(self)@.scratching,
                self.revealed == old(self)@.revealed,
                self.reveal_flagged == old(self)@.reveal_flagged,
                forall|k: int| 0 <= k < i ==> !self.scratched@[k],
            decreases self.scratched@.len() - i,
        {
            self.scratched.set(i, false);
            i = i + 1;
        }
        assert(self.scratched@ =~= Seq::new(CELLS as nat, |k: int| false));
        self.covered = true;
        self.revealed = false;
        self.reveal_flagged = false;
        self.scratching = false;
    }

    /// Scratches the cells of `brush` (`None` when the card has no
    /// area yet), then reveals the card on a first crossing of the
    /// threshold.
    fn scratch(&mut self, brush: Option<&Vec<usize>>)
        requires
            old(self)@.wf(),
        ensures
            final(self)@ == scratched_by(
                old(self)@,
                match brush {
                    Some(b) => Some(b@),
                    None => None,
                },
            ),
            final(self)@.wf(),
    {
        let b = match brush {
            Some(b) => b,
            None => {
                return ;
            },
        };
        let ghost s0 = self.scratched@;
        let mut j: usize = 0;
        while j < b.len()
            invariant
                j <= b@.len(),
                self.scratched@.len() == CELLS,
                s0.len() == CELLS,
                self.label@ == old(self)@.label,
                self.reveal_cells == old(self)@.reveal_cells,
                self.covered == old(self)@.covered,
                self.scratching == old(self)@.scratching,
                self.revealed == old(self)@.revealed,
                self.reveal_flagged == old(self)@.reveal_flagged,
                s0 == old(self)@.scratched,
                self.scratched@ =~= scratch_cells(s0, b@.take(j as int)),
            decreases b@.len() - j,
        {
            let c = b[j];
            if c < CELLS {
                self.scratched.set(c, true);
            }
            proof {
                let bj = b@.take(j as int);
                let bj1 = b@.take(j + 1);
                assert(bj1 =~= bj.push(c));
                assert forall|i: int| 0 <= i < CELLS implies self.scratched@[i] == (s0[i]
                    || bj1.contains(i as usize)) by {
                    if bj.contains(i as usize) {
                        let w = choose|w: int| 0 <= w < bj.len() && #[trigger] bj[w] == i as usize;
                        assert(bj1[w] == i as usize);
                    }
                    if bj1.contains(i as usize) {
                        let w = choose|w: int| 0 <= w < bj1.len() && #[trigger] bj1[w] == i as usize;
                        if w < j {
                            assert(bj[w] == i as usize);
                        }
                    }
                    if c == i as usize {
                        assert(bj1[j as int] == c);
                    }
                }
            }
            j = j + 1;
        }
        assert(b@.take(j as int) =~= b@);
        if !self.revealed {
            let n = self.count();
            if n >= self.reveal_cells {
                self.revealed = true;
                self.covered = false;
                self.reveal_flagged = true;
            }
        }
    }

    /// A pointer press. On a covered card a primary press starts
    /// scratching under `brush` and repaints.
    pub fn pointer_pressed(&mut self, button: PointerButton, brush: Option<&Vec<usize>>) -> (r:
        EventResponse)
        requires
            old(self)@.wf(),
        ensures
            old(self)@.covered && button == PointerButton::Primary ==> r
                == EventResponse::RequestRepaint && final(self)@ == scratched_by(
                ScratchCardView { scratching: true, ..old(self)@ },
                match brush {
                    Some(b) => Some(b@),
                    None => None,
                },
            ),
            !(old(self)@.covered && button == PointerButton::Primary) ==> r
                == EventResponse::Ignored && final(self)@ == old(self)@,
            final(self)@.wf(),
    {
        if !self.covered || button != PointerButton::Primary {
            return EventResponse::Ignored;
        }
        self.scratching = true;
        self.scratch(brush);
        EventResponse::RequestRepaint
    }

    /// The pointer moved. While scratching a covered card, the brush
    /// scratches under `brush` and the card repaints.
    pub fn pointer_moved(&mut self, brush: Option<&Vec<usize>>) -> (r: EventResponse)
        requires
            old(self)@.wf(),
        ensures
            old(self)@.covered && old(self)@.scratching ==> r == EventResponse::RequestRepaint
                && final(self)@ == scratched_by(
                old(self)@,
                match brush {
                    Some(b) => Some(b@),
                    None => None,
                },
            ),
            !(old(self)@.covered && old(self)@.scratching) ==> r == EventResponse::Ignored
                && final(self)@ == old(self)@,
            final(self)@.wf(),
    {
        if !self.covered || !self.scratching {
            return EventResponse::Ignored;
        }
        self.scratch(brush);
        EventResponse::RequestRepaint
    }

    /// A pointer release: a primary release on a covered card stops
    /// scratching and repaints.
    pub fn pointer_released(&mut self, button: PointerButton) -> (r: EventResponse)
        ensures
            old(self)@.covered && button == PointerButton::Primary ==> r
                == EventResponse::RequestRepaint && final(self)@ == (ScratchCardView {
                scratching: false,
                ..old(self)@
            }),
            !(old(self)@.covered && button == PointerButton::Primary) ==> r
                == EventResponse::Ignored && final(self)@ == old(self)@,
    {
        if !self.covered || button != PointerButton::Primary {
            return EventResponse::Ignored;
        }
        self.scratching = false;
        EventResponse::RequestRepaint
    }

    /// Number of child widgets: the content.
    pub fn child_count(&self) -> (r: usize)
        ensures
            r == 1,
    {
        1
    }

    /// The accessibility node: a group labelled by the label, valued
    /// "revealed" or "P% scratched".
    pub fn accessibility(&self) -> (n: AccessNode)
        requires
            self@.wf(),
        ensures
            n == (AccessNode { label: n.label, value: n.value, ..AccessNode::blank(Role::Group) }),
            n.label is Some && n.label.unwrap()@ == self@.label,
            n.value is Some,
            self@.revealed ==> n.value.unwrap()@ == "revealed"@,
            !self@.revealed ==> n.value.unwrap()@ == decimal(
                percent_of(count_scratched(self@.scratched)),
            ) + "% scratched"@,
    {
        let mut node = AccessNode::new(Role::Group);
        node.label = Some(self.label.clone());
        if self.revealed {
            node.value = Some(owned("revealed"));
        } else {
            let n = self.count();
            let q = n * 100 / CELLS;
            let r = n * 100 % CELLS;
            let p = if r * 2 > CELLS || (r * 2 == CELLS && q % 2 == 1) {
                q + 1
            } else {
                q
            };
            let mut v = String::new();
            push_decimal(&mut v, p as u128);
            push_str(&mut v, "% scratched");
            proof {
                assert(v@ =~= decimal(percent_of(count_scratched(self@.scratched)))
                    + "% scratched"@);
            }
            node.value = Some(v);
        }
        node
    }
}

/// A reveal is reported exactly once: after a scratch that reveals
/// the card, the first drain answers true and the next one false; and
/// a revealed card never reports a second reveal whatever is
/// scratched later.
pub proof fn lemma_reveal_reported_once(v: ScratchCardView, brush: Seq<usize>, later: Seq<usize>)
    requires
        !v.revealed,
        !v.reveal_flagged,
        scratched_by(v, Some(brush)).revealed,
    ensures
        scratched_by(v, Some(brush)).reveal_flagged,
        !scratched_by(
            ScratchCardView { reveal_flagged: false, ..scratched_by(v, Some(brush)) },
            Some(later),
        ).reveal_flagged,
{
}

} // verus!
