//! `SplitFlap`: a split-flap departure-board display. `text` sets the
//! target; each cell steps through the flap alphabet on `tick` until it
//! lands on its target character, cells to the left landing first — the
//! left-to-right ripple. Characters outside the alphabet show as blank.

use vstd::prelude::*;

use crate::access::{AccessNode, Role};
use crate::text::{owned, push_str};

verus! {

/// Number of flaps on the wheel of each cell.
pub const FLAPS: usize = 41;

/// Nanoseconds between two flap steps.
pub const FLIP_NS: u64 = 60_000_000;

/// The flap alphabet — blank first so the board can idle empty.
pub open spec fn charset() -> Seq<char> {
    seq![
        ' ', 'A', 'B', 'C', 'D', 'E', 'F', 'G', 'H', 'I', 'J', 'K', 'L', 'M', 'N', 'O', 'P', 'Q',
        'R', 'S', 'T', 'U', 'V', 'W', 'X', 'Y', 'Z', '0', '1', '2', '3', '4', '5', '6', '7', '8',
        '9', '-', '.', ':', '/',
    ]
}

/// Whether flap face `f` shows character `c`: the same character, or
/// `f` is the upper-case ASCII letter of `c`.
pub open spec fn shows(f: char, c: char) -> bool {
    f == c || ('A' <= f && f <= 'Z' && (f as int) + 32 == (c as int))
}

/// The first flap at or after `i` that shows `c`; blank (0) when none
/// does.
pub open spec fn first_flap_from(c: char, i: int) -> nat
    decreases FLAPS - i,
{
    if i >= FLAPS || i < 0 {
        0
    } else if shows(charset()[i], c) {
        i as nat
    } else {
        first_flap_from(c, i + 1)
    }
}

/// The flap a cell lands on to show `c`.
pub open spec fn flap_of(c: char) -> nat {
    first_flap_from(c, 0)
}

/// The flap cell `i` lands on for target text `t` (blank past its end).
pub open spec fn target_flap(t: Seq<char>, i: int) -> nat {
    if 0 <= i < t.len() {
        flap_of(t[i])
    } else {
        0
    }
}

/// Steps cell `f` still has to turn to reach flap `t`.
pub open spec fn gap(f: int, t: int) -> int {
    (t - f) % (FLAPS as int)
}

/// Remaining steps of cells `0..n`.
pub open spec fn total_gap(flaps: Seq<usize>, t: Seq<char>, n: int) -> int
    decreases n,
{
    if n <= 0 {
        0
    } else {
        total_gap(flaps, t, n - 1) + gap(flaps[n - 1] as int, target_flap(t, n - 1) as int)
    }
}

/// The first cell that has not landed.
pub open spec fn first_unsettled(flaps: Seq<usize>, t: Seq<char>, i: int) -> Option<int>
    decreases flaps.len() - i,
{
    if i < 0 || i >= flaps.len() {
        None
    } else if flaps[i] != target_flap(t, i) {
        Some(i)
    } else {
        first_unsettled(flaps, t, i + 1)
    }
}

/// The flaps after one ripple step: the first cell that has not landed
/// turns one flap.
pub open spec fn stepped(flaps: Seq<usize>, t: Seq<char>) -> Seq<usize> {
    match first_unsettled(flaps, t, 0) {
        Some(i) => flaps.update(i, ((flaps[i] + 1) % (FLAPS as int)) as usize),
        None => flaps,
    }
}

/// Every cell shows its target.
pub open spec fn all_landed(flaps: Seq<usize>, t: Seq<char>) -> bool {
    forall|i: int| 0 <= i < flaps.len() ==> #[trigger] flaps[i] == target_flap(t, i)
}

/// The state of a board.
pub struct SplitFlapView {
    pub label: Seq<char>,
    pub target: Seq<char>,
    pub flaps: Seq<usize>,
    /// Nanoseconds since the last step.
    pub clock: u64,
}

impl SplitFlapView {
    /// At least one cell, every flap on the wheel, the clock below one
    /// step.
    pub open spec fn wf(self) -> bool {
        &&& self.flaps.len() >= 1
        &&& forall|i: int| 0 <= i < self.flaps.len() ==> #[trigger] self.flaps[i] < FLAPS
        &&& self.clock < FLIP_NS
    }
}

/// A split-flap display.
#[derive(Debug)]
pub struct SplitFlap {
    /// Accessibility label.
    pub label: String,
    target: String,
    flaps: Vec<usize>,
    clock: u64,
}

impl View for SplitFlap {
    type V = SplitFlapView;

    closed spec fn view(&self) -> SplitFlapView {
        SplitFlapView {
            label: self.label@,
            target: self.target@,
            flaps: self.flaps@,
            clock: self.clock,
        }
    }
}

/// A copy of `v` with element `i` replaced by `x`.
fn updated(v: &Vec<usize>, i: usize, x: usize) -> (r: Vec<usize>)
    requires
        i < v.len(),
    ensures
        r@ == v@.update(i as int, x),
{
    let mut r: Vec<usize> = Vec::new();
    let mut k: usize = 0;
    while k < v.len()
        invariant
            i < v.len(),
            k <= v.len(),
            r@ == v@.update(i as int, x).take(k as int),
        decreases v.len() - k,
    {
        if k == i {
            r.push(x);
        } else {
            r.push(v[k]);
        }
        k = k + 1;
        assert(r@ =~= v@.update(i as int, x).take(k as int));
    }
    assert(v@.update(i as int, x).take(v.len() as int) =~= v@.update(i as int, x));
    r
}

/// The first flap at or after `from` that shows `c` (0 when none does).
fn flap_from(c: char, from: usize) -> (r: usize)
    requires
        from <= FLAPS,
    ensures
        r == first_flap_from(c, from as int),
        r < FLAPS,
    decreases FLAPS - from,
{
    if from >= FLAPS {
        return 0;
    }
    let faces = " ABCDEFGHIJKLMNOPQRSTUVWXYZ0123456789-.:/";
    proof {
        reveal_strlit(" ABCDEFGHIJKLMNOPQRSTUVWXYZ0123456789-.:/");
        assert(faces@ =~= charset());
    }
    let f = faces.get_char(from);
    let matched = f == c || ('A' <= f && f <= 'Z' && (f as u32) + 32 == (c as u32));
    if matched {
        from
    } else {
        flap_from(c, from + 1)
    }
}

/// The flap a cell lands on to show `c`.
pub fn flap_index(c: char) -> (r: usize)
    ensures
        r == flap_of(c),
        r < FLAPS,
{
    flap_from(c, 0)
}

impl SplitFlap {
    #[verifier::type_invariant]
    closed spec fn inv(self) -> bool {
        self@.wf()
    }

    /// A blank eight-cell board.
    pub fn new() -> (s: SplitFlap)
        ensures
            s@ == (SplitFlapView {
                label: "Departure board"@,
                target: Seq::empty(),
                flaps: Seq::new(8, |i: int| 0usize),
                clock: 0,
            }),
    {
        let mut flaps: Vec<usize> = Vec::new();
        let mut k: usize = 0;
        while k < 8
            invariant
                k <= 8,
                flaps@ == Seq::new(k as nat, |i: int| 0usize),
            decreases 8 - k,
        {
            flaps.push(0);
            k = k + 1;
            assert(flaps@ =~= Seq::new(k as nat, |i: int| 0usize));
        }
        let target = String::new();
        SplitFlap { label: owned("Departure board"), target, flaps, clock: 0 }
    }

    /// Sets the cell count (at least one); flaps already there keep
    /// their position, new ones start blank.
    pub fn cells(self, cells: usize) -> (s: SplitFlap)
        ensures
            ({
                let n = if cells > 1 { cells } else { 1 };
                &&& s@.flaps.len() == n
                &&& forall|i: int| 0 <= i < n ==> #[trigger] s@.flaps[i] == (if i < self@.flaps.len() {
                    self@.flaps[i]
                } else {
                    0usize
                })
                &&& s@.label == self@.label
                &&& s@.target == self@.target
                &&& s@.clock == self@.clock
            }),
    {
        proof {
            use_type_invariant(&self);
        }
        let n = if cells > 1 {
            cells
        } else {
            1
        };
        let mut flaps: Vec<usize> = Vec::new();
        let mut k: usize = 0;
        while k < n
            invariant
                k <= n,
                flaps@.len() == k,
                forall|i: int| 0 <= i < k ==> #[trigger] flaps@[i] == (if i < self@.flaps.len() {
                    self@.flaps[i]
                } else {
                    0usize
                }),
                forall|i: int| 0 <= i < self@.flaps.len() ==> #[trigger] self@.flaps[i] < FLAPS,
            decreases n - k,
        {
            let v = if k < self.flaps.len() {
                self.flaps[k]
            } else {
                0
            };
            flaps.push(v);
            k = k + 1;
        }
        SplitFlap { label: self.label, target: self.target, flaps, clock: self.clock }
    }

    /// Sets the target text.
    pub fn text(self, text: &str) -> (s: SplitFlap)
        ensures
            s@ == (SplitFlapView { target: text@, ..self@ }),
    {
        proof {
            use_type_invariant(&self);
        }
        let mut s = self;
        s.target = owned(text);
        s
    }

    /// Sets the accessibility label.
    pub fn label(self, label: &str) -> (s: SplitFlap)
        ensures
            s@ == (SplitFlapView { label: label@, ..self@ }),
    {
        proof {
            use_type_invariant(&self);
        }
        let mut s = self;
        s.label = owned(label);
        s
    }

    /// Number of cells.
    pub fn cell_count(&self) -> (r: usize)
        ensures
            r == self@.flaps.len(),
            r >= 1,
    {
        proof {
            use_type_invariant(self);
        }
        self.flaps.len()
    }

    /// The target text.
    pub fn target_text(&self) -> (r: &str)
        ensures
            r@ == self@.target,
    {
        self.target.as_str()
    }

    /// The flap cell `i` currently shows, if there is such a cell.
    pub fn flap_at(&self, i: usize) -> (r: Option<usize>)
        ensures
            i < self@.flaps.len() ==> r == Some(self@.flaps[i as int]),
            i >= self@.flaps.len() ==> r is None,
    {
        if i < self.flaps.len() {
            Some(self.flaps[i])
        } else {
            None
        }
    }

    /// The flap cell `i` must land on.
    pub fn target_index(&self, i: usize) -> (r: usize)
        ensures
            r == target_flap(self@.target, i as int),
            r < FLAPS,
    {
        let t = self.target.as_str();
        if i < t.unicode_len() {
            flap_index(t.get_char(i))
        } else {
            0
        }
    }

    /// Whether every cell shows its target.
    pub fn settled(&self) -> (r: bool)
        ensures
            r == all_landed(self@.flaps, self@.target),
    {
        let n = self.flaps.len();
        let mut i: usize = 0;
        while i < n
            invariant
                n == self@.flaps.len(),
                i <= n,
                forall|j: int| 0 <= j < i ==> #[trigger] self@.flaps[j] == target_flap(self@.target, j),
            decreases n - i,
        {
            if self.flaps[i] != self.target_index(i) {
                return false;
            }
            i = i + 1;
        }
        true
    }

    /// One ripple step: the first cell that has not landed turns one
    /// flap.
    fn step(&mut self)
        ensures
            final(self)@ == (SplitFlapView { flaps: stepped(old(self)@.flaps, old(self)@.target), ..old(self)@ }),
    {
        proof {
            use_type_invariant(&*self);
        }
        let n = self.flaps.len();
        let mut i: usize = 0;
        while i < n
            invariant
                n == self@.flaps.len(),
                i <= n,
                self@ == old(self)@,
                self@.wf(),
                first_unsettled(self@.flaps, self@.target, 0) == first_unsettled(
                    self@.flaps,
                    self@.target,
                    i as int,
                ),
                forall|j: int| 0 <= j < self@.flaps.len() ==> #[trigger] self@.flaps[j] < FLAPS,
            decreases n - i,
        {
            let t = self.target_index(i);
            if self.flaps[i] != t {
                let next = (self.flaps[i] + 1) % FLAPS;
                let flaps = updated(&self.flaps, i, next);
                proof {
                    assert(flaps@ =~= stepped(self@.flaps, self@.target));
                    assert forall|j: int| 0 <= j < flaps@.len() implies #[trigger] flaps@[j] < FLAPS by {
                        if j != i {
                            assert(flaps@[j] == self@.flaps[j]);
                        }
                    }
                }
                self.flaps = flaps;
                return;
            }
            i = i + 1;
        }
    }

    /// Advances the board clock by `dt_ns` nanoseconds; each time a full
    /// step interval has passed, one ripple step runs. Returns whether
    /// the board still animates.
    pub fn tick(&mut self, dt_ns: u64) -> (r: bool)
        ensures
            ({
                let v = old(self)@;
                if all_landed(v.flaps, v.target) {
                    final(self)@ == v && !r
                } else if dt_ns >= FLIP_NS - v.clock {
                    final(self)@ == (SplitFlapView { flaps: stepped(v.flaps, v.target), clock: 0, ..v })
                        && r
                } else {
                    final(self)@ == (SplitFlapView { clock: (v.clock + dt_ns) as u64, ..v }) && r
                }
            }),
    {
        proof {
            use_type_invariant(&*self);
        }
        if self.settled() {
            return false;
        }
        if dt_ns >= FLIP_NS - self.clock {
            self.clock = 0;
            self.step();
            return true;
        }
        self.clock = self.clock + dt_ns;
        true
    }

    /// The accessibility node: an image labelled with the label and the
    /// target text.
    pub fn accessibility(&self) -> (n: AccessNode)
        ensures
            n == (AccessNode { label: n.label, ..AccessNode::blank(Role::Image) }),
            n.label is Some,
            n.label.unwrap()@ == self@.label + " — "@ + self@.target,
    {
        let mut label = self.label.clone();
        push_str(&mut label, " — ");
        push_str(&mut label, self.target.as_str());
        let mut node = AccessNode::new(Role::Image);
        node.label = Some(label);
        node
    }
}


/// A target flap is on the wheel.
pub proof fn lemma_target_on_wheel(t: Seq<char>, i: int)
    ensures
        target_flap(t, i) < FLAPS,
{
    if 0 <= i < t.len() {
        lemma_first_flap_bound(t[i], 0);
    }
}

proof fn lemma_first_flap_bound(c: char, i: int)
    ensures
        first_flap_from(c, i) < FLAPS,
    decreases FLAPS - i,
{
    if !(i >= FLAPS || i < 0) && !shows(charset()[i], c) {
        lemma_first_flap_bound(c, i + 1);
    }
}

/// The gap between two flaps on the wheel is in `0..FLAPS`, zero
/// exactly when they are equal, and turning the first flap one step
/// closes it by one.
pub proof fn lemma_gap(f: int, t: int)
    requires
        0 <= f < FLAPS,
        0 <= t < FLAPS,
    ensures
        0 <= gap(f, t) < FLAPS,
        gap(f, t) == 0 <==> f == t,
        f != t ==> gap((f + 1) % (FLAPS as int), t) == gap(f, t) - 1,
{
    let m = FLAPS as int;
    if t >= f {
        vstd::arithmetic::div_mod::lemma_small_mod((t - f) as nat, m as nat);
    } else {
        vstd::arithmetic::div_mod::lemma_mod_add_multiples_vanish(t - f, m);
        vstd::arithmetic::div_mod::lemma_small_mod((m + t - f) as nat, m as nat);
    }
    if f != t {
        if f + 1 < m {
            vstd::arithmetic::div_mod::lemma_small_mod((f + 1) as nat, m as nat);
            if t >= f + 1 {
                vstd::arithmetic::div_mod::lemma_small_mod((t - f - 1) as nat, m as nat);
            } else {
                vstd::arithmetic::div_mod::lemma_mod_add_multiples_vanish(t - f - 1, m);
                vstd::arithmetic::div_mod::lemma_small_mod((m + t - f - 1) as nat, m as nat);
            }
        } else {
            vstd::arithmetic::div_mod::lemma_mod_self_0(m);
            vstd::arithmetic::div_mod::lemma_small_mod(t as nat, m as nat);
        }
    }
}

/// Changing cell `i` of the first `n` changes their remaining steps by
/// the difference of the two gaps.
proof fn lemma_total_gap_update(flaps: Seq<usize>, t: Seq<char>, n: int, i: int, v: usize)
    requires
        0 <= i < n <= flaps.len(),
    ensures
        total_gap(flaps.update(i, v), t, n) == total_gap(flaps, t, n) - gap(
            flaps[i] as int,
            target_flap(t, i) as int,
        ) + gap(v as int, target_flap(t, i) as int),
    decreases n,
{
    if n - 1 > i {
        lemma_total_gap_update(flaps, t, n - 1, i, v);
    } else {
        lemma_total_gap_same(flaps, flaps.update(i, v), t, n - 1);
    }
}

/// Remaining steps only depend on the cells counted.
proof fn lemma_total_gap_same(a: Seq<usize>, b: Seq<usize>, t: Seq<char>, n: int)
    requires
        n <= a.len(),
        n <= b.len(),
        forall|j: int| 0 <= j < n ==> a[j] == b[j],
    ensures
        total_gap(a, t, n) == total_gap(b, t, n),
    decreases n,
{
    if n > 0 {
        lemma_total_gap_same(a, b, t, n - 1);
    }
}

/// Remaining steps are never negative, and vanish exactly when the
/// cells counted have landed.
proof fn lemma_total_gap_zero(flaps: Seq<usize>, t: Seq<char>, n: int)
    requires
        0 <= n <= flaps.len(),
        forall|j: int| 0 <= j < flaps.len() ==> #[trigger] flaps[j] < FLAPS,
    ensures
        0 <= total_gap(flaps, t, n) <= (FLAPS - 1) * n,
        total_gap(flaps, t, n) == 0 <==> forall|j: int| 0 <= j < n ==> #[trigger] flaps[j] == target_flap(t, j),
    decreases n,
{
    if n > 0 {
        lemma_total_gap_zero(flaps, t, n - 1);
        lemma_target_on_wheel(t, n - 1);
        lemma_gap(flaps[n - 1] as int, target_flap(t, n - 1) as int);
        if total_gap(flaps, t, n) == 0 {
            assert forall|j: int| 0 <= j < n implies #[trigger] flaps[j] == target_flap(t, j) by {
                if j < n - 1 {
                    assert(total_gap(flaps, t, n - 1) == 0);
                }
            }
        }
    }
}

/// The first cell that has not landed, searched from `k`: every cell
/// between `k` and it has landed; when there is none, every cell from
/// `k` on has.
proof fn lemma_first_unsettled(flaps: Seq<usize>, t: Seq<char>, k: int)
    requires
        0 <= k,
    ensures
        first_unsettled(flaps, t, k) matches Some(i) ==> k <= i < flaps.len() && flaps[i]
            != target_flap(t, i) && forall|j: int| k <= j < i ==> #[trigger] flaps[j] == target_flap(t, j),
        first_unsettled(flaps, t, k) is None ==> forall|j: int|
            k <= j < flaps.len() ==> #[trigger] flaps[j] == target_flap(t, j),
    decreases flaps.len() - k,
{
    if k < flaps.len() && flaps[k] == target_flap(t, k) {
        lemma_first_unsettled(flaps, t, k + 1);
    }
}

/// The ripple law: one step on a board that has not landed turns only
/// the leftmost cell that has not landed — every cell left of it has
/// landed — and brings the board exactly one step closer; on a landed
/// board a step changes nothing. Since the remaining steps never
/// exceed `(FLAPS - 1)` per cell, every board lands within
/// `(FLAPS - 1) * cells` steps.
pub proof fn lemma_ripple(flaps: Seq<usize>, t: Seq<char>)
    requires
        forall|j: int| 0 <= j < flaps.len() ==> #[trigger] flaps[j] < FLAPS,
    ensures
        0 <= total_gap(flaps, t, flaps.len() as int) <= (FLAPS - 1) * flaps.len(),
        all_landed(flaps, t) <==> total_gap(flaps, t, flaps.len() as int) == 0,
        all_landed(flaps, t) ==> stepped(flaps, t) == flaps,
        !all_landed(flaps, t) ==> {
            &&& first_unsettled(flaps, t, 0) is Some
            &&& forall|j: int|
                0 <= j < first_unsettled(flaps, t, 0).unwrap() ==> #[trigger] stepped(flaps, t)[j]
                    == flaps[j] && flaps[j] == target_flap(t, j)
            &&& forall|j: int|
                first_unsettled(flaps, t, 0).unwrap() < j < flaps.len() ==> #[trigger] stepped(flaps, t)[j]
                    == flaps[j]
            &&& total_gap(stepped(flaps, t), t, flaps.len() as int) == total_gap(
                flaps,
                t,
                flaps.len() as int,
            ) - 1
        },
        forall|j: int| 0 <= j < stepped(flaps, t).len() ==> #[trigger] stepped(flaps, t)[j] < FLAPS,
        stepped(flaps, t).len() == flaps.len(),
{
    let n = flaps.len() as int;
    lemma_total_gap_zero(flaps, t, n);
    lemma_first_unsettled(flaps, t, 0);
    match first_unsettled(flaps, t, 0) {
        Some(i) => {
            let v = ((flaps[i] + 1) % (FLAPS as int)) as usize;
            lemma_target_on_wheel(t, i);
            lemma_gap(flaps[i] as int, target_flap(t, i) as int);
            lemma_total_gap_update(flaps, t, n, i, v);
            assert(!all_landed(flaps, t));
        },
        None => {},
    }
}

} // verus!
