//! `StepSequencer`: an instrument × step toggle grid with a tick-driven
//! playhead column. Rows are lanes, columns are beats. A click toggles
//! a cell and parks `(row, col, on)` for
//! [`StepSequencer::take_changed`]; while playing, `tick` advances the
//! playhead and parks each new column for [`StepSequencer::take_step`].
//! Durations are counted in nanoseconds.

use vstd::prelude::*;

use crate::access::{AccessNode, Role};
use crate::event::{key_of, EventResponse, Key, PointerButton};
use crate::text::{decimal, owned, push_decimal, push_str};

verus! {

/// Shortest step interval, in nanoseconds.
pub const MIN_STEP_NS: u64 = 10_000_000;

/// The state of a sequencer.
pub struct StepSequencerView {
    pub label: Seq<char>,
    pub step_ns: u64,
    pub lanes: Seq<Seq<char>>,
    pub grid: Seq<Seq<bool>>,
    pub rows: usize,
    pub cols: usize,
    pub playing: bool,
    pub play_col: usize,
    /// Nanoseconds accumulated towards the next step.
    pub clock: u64,
    pub changed: Option<(usize, usize, bool)>,
    pub stepped: Option<usize>,
    pub held: Option<(usize, usize)>,
}

impl StepSequencerView {
    /// The grid is `rows` × `cols`.
    pub open spec fn wf(self) -> bool {
        &&& self.grid.len() == self.rows
        &&& forall|r: int| 0 <= r < self.rows ==> (#[trigger] self.grid[r]).len() == self.cols
    }

    /// Whether `(r, c)` names a cell.
    pub open spec fn in_grid(self, r: usize, c: usize) -> bool {
        r < self.rows && c < self.cols
    }

    /// The state of cell `(r, c)`; off outside the grid.
    pub open spec fn cell(self, r: int, c: int) -> bool {
        if 0 <= r < self.grid.len() && 0 <= c < self.grid[r].len() {
            self.grid[r][c]
        } else {
            false
        }
    }

    /// The grid with cell `(r, c)` set to `on`.
    pub open spec fn grid_with(self, r: int, c: int, on: bool) -> Seq<Seq<bool>> {
        if 0 <= r < self.grid.len() && 0 <= c < self.grid[r].len() {
            self.grid.update(r, self.grid[r].update(c, on))
        } else {
            self.grid
        }
    }

    /// Number of cells switched on.
    pub open spec fn on_count(self) -> nat {
        count_on(self.grid, self.grid.len() as int)
    }
}

/// Cells switched on in the first `n` rows.
pub open spec fn count_on(grid: Seq<Seq<bool>>, n: int) -> nat
    decreases n,
{
    if n <= 0 {
        0
    } else {
        count_on(grid, n - 1) + count_row(grid[n - 1], grid[n - 1].len() as int)
    }
}

/// Cells switched on in the first `n` of a row.
pub open spec fn count_row(row: Seq<bool>, n: int) -> nat
    decreases n,
{
    if n <= 0 {
        0
    } else {
        count_row(row, n - 1) + if row[n - 1] {
            1nat
        } else {
            0nat
        }
    }
}

/// A step sequencer grid.
#[derive(Debug)]
pub struct StepSequencer {
    /// Accessibility label.
    pub label: String,
    /// Nanoseconds per step while playing.
    pub step_ns: u64,
    /// Instrument lane labels.
    pub lanes: Vec<String>,
    grid: Vec<Vec<bool>>,
    rows: usize,
    cols: usize,
    playing: bool,
    play_col: usize,
    clock: u64,
    changed: Option<(usize, usize, bool)>,
    stepped: Option<usize>,
    held: Option<(usize, usize)>,
}

impl View for StepSequencer {
    type V = StepSequencerView;

    closed spec fn view(&self) -> StepSequencerView {
        StepSequencerView {
            label: self.label@,
            step_ns: self.step_ns,
            lanes: self.lanes@.map_values(|l: String| l@),
            grid: self.grid@.map_values(|row: Vec<bool>| row@),
            rows: self.rows,
            cols: self.cols,
            playing: self.playing,
            play_col: self.play_col,
            clock: self.clock,
            changed: self.changed,
            stepped: self.stepped,
            held: self.held,
        }
    }
}

impl StepSequencer {
    /// An empty `rows` × `cols` grid, stopped, stepping every 125 ms.
    pub fn new(rows: usize, cols: usize) -> (s: StepSequencer)
        ensures
            s@.wf(),
            s@.label == "Step sequencer"@,
            s@.step_ns == 125_000_000,
            s@.lanes.len() == 0,
            s@.rows == rows,
            s@.cols == cols,
            forall|r: int, c: int| !#[trigger] s@.cell(r, c),
            !s@.playing,
            s@.play_col == 0,
            s@.clock == 0,
            s@.changed is None,
            s@.stepped is None,
            s@.held is None,
    {
        let mut grid: Vec<Vec<bool>> = Vec::new();
        let mut r: usize = 0;
        while r < rows
            invariant
                r <= rows,
                grid.len() == r,
                forall|i: int| 0 <= i < r ==> (#[trigger] grid@[i])@ == Seq::new(cols as nat, |j: int| false),
            decreases rows - r,
        {
            let mut row: Vec<bool> = Vec::new();
            let mut c: usize = 0;
            while c < cols
                invariant
                    c <= cols,
                    row@ == Seq::new(c as nat, |j: int| false),
                decreases cols - c,
            {
                row.push(false);
                c = c + 1;
                assert(row@ =~= Seq::new(c as nat, |j: int| false));
            }
            grid.push(row);
            r = r + 1;
        }
        let s = StepSequencer {
            label: owned("Step sequencer"),
            step_ns: 125_000_000,
            lanes: Vec::new(),
            grid,
            rows,
            cols,
            playing: false,
            play_col: 0,
            clock: 0,
            changed: None,
            stepped: None,
            held: None,
        };
        assert(s@.lanes =~= Seq::<Seq<char>>::empty());
        assert forall|r: int, c: int| !#[trigger] s@.cell(r, c) by {
            if 0 <= r < s@.grid.len() && 0 <= c < s@.grid[r].len() {
                assert(s@.grid[r] == grid@[r]@);
            }
        }
        s
    }

    /// Sets the lane labels.
    pub fn lanes(self, lanes: Vec<&str>) -> (s: StepSequencer)
        ensures
            s@ == (StepSequencerView { lanes: lanes@.map_values(|l: &str| l@), ..self@ }),
    {
        let mut names: Vec<String> = Vec::new();
        let mut k: usize = 0;
        while k < lanes.len()
            invariant
                k <= lanes.len(),
                names.len() == k,
                forall|j: int| 0 <= j < k ==> (#[trigger] names@[j])@ == lanes@[j]@,
            decreases lanes.len() - k,
        {
            names.push(owned(lanes[k]));
            k = k + 1;
        }
        let mut s = self;
        s.lanes = names;
        assert(s@.lanes =~= lanes@.map_values(|l: &str| l@));
        s
    }

    /// Sets the step interval, at least [`MIN_STEP_NS`].
    pub fn step_ns(self, ns: u64) -> (s: StepSequencer)
        ensures
            s@ == (StepSequencerView {
                step_ns: if ns > MIN_STEP_NS { ns } else { MIN_STEP_NS },
                ..self@
            }),
    {
        let mut s = self;
        s.step_ns = if ns > MIN_STEP_NS {
            ns
        } else {
            MIN_STEP_NS
        };
        s
    }

    /// Sets the accessibility label.
    pub fn label(self, label: &str) -> (s: StepSequencer)
        ensures
            s@ == (StepSequencerView { label: label@, ..self@ }),
    {
        let mut s = self;
        s.label = owned(label);
        s
    }

    /// Switches on the listed cells; pairs outside the grid are
    /// skipped.
    pub fn cells_on(self, cells: Vec<(usize, usize)>) -> (s: StepSequencer)
        requires
            self@.wf(),
        ensures
            s@.wf(),
            s@.grid.len() == self@.grid.len(),
            forall|r: int, c: int|
                #[trigger] s@.cell(r, c) == (self@.cell(r, c) || exists|k: int|
                    0 <= k < cells.len() && cells@[k] == (r as usize, c as usize) && self@.in_grid(
                        r as usize,
                        c as usize,
                    ) && r == cells@[k].0 && c == cells@[k].1),
            s@ == (StepSequencerView { grid: s@.grid, ..self@ }),
    {
        let mut s = self;
        let mut k: usize = 0;
        while k < cells.len()
            invariant
                k <= cells.len(),
                s@.wf(),
                s@ == (StepSequencerView { grid: s@.grid, ..self@ }),
                forall|r: int, c: int|
                    #[trigger] s@.cell(r, c) == (self@.cell(r, c) || exists|j: int|
                        0 <= j < k && cells@[j] == (r as usize, c as usize) && self@.in_grid(
                            r as usize,
                            c as usize,
                        ) && r == cells@[j].0 && c == cells@[j].1),
            decreases cells.len() - k,
        {
            let (r, c) = cells[k];
            if r < s.rows && c < s.cols {
                s.set_cell(r, c, true);
            }
            k = k + 1;
        }
        s
    }

    /// Number of lanes.
    pub fn row_count(&self) -> (r: usize)
        ensures
            r == self@.rows,
    {
        self.rows
    }

    /// Number of steps.
    pub fn col_count(&self) -> (r: usize)
        ensures
            r == self@.cols,
    {
        self.cols
    }

    /// The state of cell `(row, col)`; off outside the grid.
    pub fn cell(&self, row: usize, col: usize) -> (r: bool)
        ensures
            r == self@.cell(row as int, col as int),
    {
        if row < self.grid.len() && col < self.grid[row].len() {
            self.grid[row][col]
        } else {
            false
        }
    }

    /// Sets a cell; nothing is parked. No-op outside the grid.
    pub fn set_cell(&mut self, row: usize, col: usize, on: bool)
        ensures
            final(self)@ == (StepSequencerView {
                grid: old(self)@.grid_with(row as int, col as int, on),
                ..old(self)@
            }),
            old(self)@.wf() ==> final(self)@.wf(),
            forall|r: int, c: int|
                #[trigger] final(self)@.cell(r, c) == (if r == row && c == col && row < old(
                    self,
                )@.grid.len() && col < old(self)@.grid[row as int].len() {
                    on
                } else {
                    old(self)@.cell(r, c)
                }),
    {
        if row < self.grid.len() && col < self.grid[row].len() {
            let ghost before = self.grid@;
            self.grid[row].set(col, on);
            proof {
                assert forall|i: int| 0 <= i < before.len() && i != row implies self.grid@[i] == before[i] by {}
                assert(self@.grid =~= old(self)@.grid_with(row as int, col as int, on));
            }
        }
    }

    /// Switches every cell off.
    pub fn clear(&mut self)
        ensures
            final(self)@ == (StepSequencerView { grid: final(self)@.grid, ..old(self)@ }),
            final(self)@.grid.len() == old(self)@.grid.len(),
            forall|r: int| 0 <= r < old(self)@.grid.len() ==> (#[trigger] final(self)@.grid[r]).len() == old(self)@.grid[r].len(),
            forall|r: int, c: int| !#[trigger] final(self)@.cell(r, c),
            old(self)@.wf() ==> final(self)@.wf(),
    {
        let n = self.grid.len();
        assert(n == self@.grid.len());
        let mut r: usize = 0;
        while r < n
            invariant
                n == self@.grid.len(),
                r <= n,
                self@ == (StepSequencerView { grid: self@.grid, ..old(self)@ }),
                forall|i: int| 0 <= i < n ==> (#[trigger] self@.grid[i]).len() == old(self)@.grid[i].len(),
                forall|i: int, c: int| 0 <= i < r && 0 <= c < self@.grid[i].len() ==> !#[trigger] self@.grid[i][c],
            decreases n - r,
        {
            let m = self.grid[r].len();
            assert(m == self@.grid[r as int].len());
            let mut c: usize = 0;
            while c < m
                invariant
                    n == self@.grid.len(),
                    r < n,
                    m == self@.grid[r as int].len(),
                    c <= m,
                    self@ == (StepSequencerView { grid: self@.grid, ..old(self)@ }),
                    forall|i: int| 0 <= i < n ==> (#[trigger] self@.grid[i]).len() == old(self)@.grid[i].len(),
                    forall|i: int, k: int| 0 <= i < r && 0 <= k < self@.grid[i].len() ==> !#[trigger] self@.grid[i][k],
                    forall|k: int| 0 <= k < c ==> !#[trigger] self@.grid[r as int][k],
                decreases m - c,
            {
                self.set_cell(r, c, false);
                c = c + 1;
            }
            r = r + 1;
        }
    }

    /// Whether the playhead runs.
    pub fn is_playing(&self) -> (r: bool)
        ensures
            r == self@.playing,
    {
        self.playing
    }

    /// Starts or stops the playhead; starting restarts the step clock.
    pub fn set_playing(&mut self, playing: bool)
        ensures
            final(self)@ == (StepSequencerView {
                playing,
                clock: if playing { 0 } else { old(self)@.clock },
                ..old(self)@
            }),
    {
        self.playing = playing;
        if playing {
            self.clock = 0;
        }
    }

    /// The playhead column.
    pub fn play_col(&self) -> (r: usize)
        ensures
            r == self@.play_col,
    {
        self.play_col
    }

    /// Drains the last toggled `(row, col, on)`.
    pub fn take_changed(&mut self) -> (r: Option<(usize, usize, bool)>)
        ensures
            r == old(self)@.changed,
            final(self)@ == (StepSequencerView { changed: None, ..old(self)@ }),
    {
        self.changed.take()
    }

    /// Drains the last playhead column advance.
    pub fn take_step(&mut self) -> (r: Option<usize>)
        ensures
            r == old(self)@.stepped,
            final(self)@ == (StepSequencerView { stepped: None, ..old(self)@ }),
    {
        self.stepped.take()
    }

    /// A pointer press on `cell` (or none): a primary press on a cell
    /// holds it until release.
    pub fn pointer_pressed(&mut self, button: PointerButton, cell: Option<(usize, usize)>) -> (r:
        EventResponse)
        ensures
            ({
                let hit = button == PointerButton::Primary && cell is Some && old(self)@.in_grid(
                    cell.unwrap().0,
                    cell.unwrap().1,
                );
                &&& hit ==> final(self)@ == (StepSequencerView { held: cell, ..old(self)@ }) && r
                    == EventResponse::CapturePointer
                &&& !hit ==> final(self)@ == old(self)@ && r == EventResponse::Ignored
            }),
    {
        match button {
            PointerButton::Primary => match cell {
                Some((r, c)) => {
                    if r < self.rows && c < self.cols {
                        self.held = Some((r, c));
                        return EventResponse::CapturePointer;
                    }
                    EventResponse::Ignored
                },
                None => EventResponse::Ignored,
            },
            _ => EventResponse::Ignored,
        }
    }

    /// A pointer release over `cell` (or none): releasing a primary
    /// press on the cell it started on toggles that cell and parks the
    /// change.
    pub fn pointer_released(&mut self, button: PointerButton, cell: Option<(usize, usize)>) -> (r:
        EventResponse)
        ensures
            ({
                let v = old(self)@;
                if button == PointerButton::Primary && v.held is Some {
                    let (hr, hc) = v.held.unwrap();
                    &&& r == EventResponse::ReleasePointer
                    &&& if cell == v.held {
                        let on = !v.cell(hr as int, hc as int);
                        final(self)@ == (StepSequencerView {
                            grid: v.grid_with(hr as int, hc as int, on),
                            changed: Some((hr, hc, on)),
                            held: None,
                            ..v
                        })
                    } else {
                        final(self)@ == (StepSequencerView { held: None, ..v })
                    }
                } else {
                    final(self)@ == v && r == EventResponse::Ignored
                }
            }),
    {
        match button {
            PointerButton::Primary => match self.held.take() {
                Some((r, c)) => {
                    let same = match cell {
                        Some((cr, cc)) => cr == r && cc == c,
                        None => false,
                    };
                    if same {
                        let on = !self.cell(r, c);
                        self.set_cell(r, c, on);
                        self.changed = Some((r, c, on));
                    }
                    EventResponse::ReleasePointer
                },
                None => EventResponse::Ignored,
            },
            _ => EventResponse::Ignored,
        }
    }

    /// A key press: the space bar toggles play/stop.
    pub fn key_pressed(&mut self, key: &str) -> (r: EventResponse)
        ensures
            ({
                let v = old(self)@;
                let k = key_of(key@);
                if k == Key::Blank || k == Key::Space {
                    final(self)@ == (StepSequencerView {
                        playing: !v.playing,
                        clock: if !v.playing { 0 } else { v.clock },
                        ..v
                    }) && r == EventResponse::RequestRepaint
                } else {
                    final(self)@ == v && r == EventResponse::Ignored
                }
            }),
    {
        match Key::from_name(key) {
            Key::Blank | Key::Space => {
                let p = self.playing;
                self.set_playing(!p);
                EventResponse::RequestRepaint
            },
            _ => EventResponse::Ignored,
        }
    }

    /// Advances the step clock by `dt_ns` while playing; once a step
    /// interval has accumulated, the playhead moves one column (wrapping)
    /// and the column is parked. Returns whether the sequencer runs.
    pub fn tick(&mut self, dt_ns: u64) -> (r: bool)
        ensures
            ({
                let v = old(self)@;
                let clock = if v.clock + dt_ns > u64::MAX { u64::MAX } else { (v.clock + dt_ns) as u64 };
                if !v.playing || v.cols == 0 {
                    final(self)@ == v && !r
                } else if clock >= v.step_ns {
                    let col = ((v.play_col + 1) % (v.cols as int)) as usize;
                    final(self)@ == (StepSequencerView {
                        clock: (clock - v.step_ns) as u64,
                        play_col: col,
                        stepped: Some(col),
                        ..v
                    }) && r
                } else {
                    final(self)@ == (StepSequencerView { clock, ..v }) && r
                }
            }),
    {
        if !self.playing || self.cols == 0 {
            return false;
        }
        self.clock = self.clock.saturating_add(dt_ns);
        if self.clock >= self.step_ns {
            self.clock = self.clock - self.step_ns;
            let col = if self.play_col < self.cols - 1 {
                self.play_col + 1
            } else {
                (self.play_col % self.cols + 1) % self.cols
            };
            proof {
                let n = self.cols as int;
                let p = old(self).play_col as int;
                if p < n - 1 {
                    vstd::arithmetic::div_mod::lemma_small_mod((p + 1) as nat, n as nat);
                } else {
                    vstd::arithmetic::div_mod::lemma_mod_bound(p, n);
                    vstd::arithmetic::div_mod::lemma_add_mod_noop_right(1, p, n);
                }
            }
            self.play_col = col;
            self.stepped = Some(col);
        }
        true
    }

    /// The accessibility node: a grid labelled by the label whose value
    /// counts the cells switched on.
    pub fn accessibility(&self) -> (n: AccessNode)
        ensures
            n == (AccessNode { label: n.label, value: n.value, ..AccessNode::blank(Role::Grid) }),
            n.label is Some,
            n.label.unwrap()@ == self@.label,
            n.value is Some,
            n.value.unwrap()@ == decimal(self@.on_count()) + " steps on"@,
    {
        let nrows = self.grid.len();
        let mut on: u128 = 0;
        let mut r: usize = 0;
        while r < nrows
            invariant
                nrows == self@.grid.len(),
                r <= nrows,
                on == count_on(self@.grid, r as int),
                on <= r * (usize::MAX as int),
            decreases nrows - r,
        {
            let m = self.grid[r].len();
            let mut c: usize = 0;
            let mut row_on: u128 = 0;
            while c < m
                invariant
                    nrows == self@.grid.len(),
                    r < nrows,
                    m == self@.grid[r as int].len(),
                    c <= m,
                    row_on == count_row(self@.grid[r as int], c as int),
                    row_on <= c,
                decreases m - c,
            {
                if self.grid[r][c] {
                    row_on = row_on + 1;
                }
                c = c + 1;
            }
            proof {
                let big = usize::MAX as int;
                assert(on + row_on <= (r + 1) * big) by (nonlinear_arith)
                    requires
                        on <= r * big,
                        row_on <= big;
                assert((r + 1) * big <= big * big) by (nonlinear_arith)
                    requires
                        r + 1 <= big,
                        0 <= big;
                assert(big * big <= 0xffff_ffff_ffff_ffffint * 0xffff_ffff_ffff_ffffint) by (nonlinear_arith)
                    requires
                        0 <= big <= 0xffff_ffff_ffff_ffff;
            }
            on = on + row_on;
            r = r + 1;
        }
        let mut value = String::new();
        push_decimal(&mut value, on);
        push_str(&mut value, " steps on");
        let mut node = AccessNode::new(Role::Grid);
        node.label = Some(self.label.clone());
        node.value = Some(value);
        node
    }
}

/// Clicking a cell twice restores the grid: the second click writes back
/// the state the first one replaced.
pub proof fn lemma_toggle_cell_twice(v: StepSequencerView, r: usize, c: usize)
    requires
        v.wf(),
        v.in_grid(r, c),
    ensures
        ({
            let once = StepSequencerView { grid: v.grid_with(r as int, c as int, !v.cell(r as int, c as int)), ..v };
            &&& once.cell(r as int, c as int) == !v.cell(r as int, c as int)
            &&& once.grid_with(r as int, c as int, !once.cell(r as int, c as int)) == v.grid
        }),
{
    let once = StepSequencerView { grid: v.grid_with(r as int, c as int, !v.cell(r as int, c as int)), ..v };
    assert(once.grid[r as int] == v.grid[r as int].update(c as int, !v.grid[r as int][c as int]));
    assert(once.grid_with(r as int, c as int, !once.cell(r as int, c as int))[r as int] =~= v.grid[r as int]);
    assert(once.grid_with(r as int, c as int, !once.cell(r as int, c as int)) =~= v.grid);
}

/// While playing, the playhead stays on a column: one advance from any
/// column of a non-empty grid lands on a column, wrapping after the
/// last.
pub proof fn lemma_playhead_in_range(play_col: usize, cols: usize)
    requires
        cols > 0,
    ensures
        0 <= (play_col + 1) % (cols as int) < cols,
        play_col == cols - 1 ==> (play_col + 1) % (cols as int) == 0,
        play_col + 1 < cols ==> (play_col + 1) % (cols as int) == play_col + 1,
{
    vstd::arithmetic::div_mod::lemma_mod_bound(play_col + 1, cols as int);
    if play_col == cols - 1 {
        vstd::arithmetic::div_mod::lemma_mod_self_0(cols as int);
    }
    if play_col + 1 < cols {
        vstd::arithmetic::div_mod::lemma_small_mod((play_col + 1) as nat, cols as nat);
    }
}

} // verus!
