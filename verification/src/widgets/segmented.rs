//! `Segmented`: a single-select pill strip — one rounded strip split
//! into equal segments, exactly one of them selected.
//!
//! The strip is one tab stop (roving tabindex); arrow keys move the
//! focus and select the newly focused segment, `Home`/`End` jump to the
//! ends, `Space`/`Enter` select the focused segment. Presses and
//! accessibility clicks on a segment are parked on the segment and
//! applied by the group in [`Segmented::poll_pending`], so the
//! single-selection rule is kept in one place. Selection changes are
//! reported once through [`Segmented::take_selected`].

use vstd::prelude::*;

use crate::access::{AccessNode, Orientation, Role};
use crate::event::{key_of, EventResponse, Key, PointerButton, SemanticAction};
use crate::text::{opt_text, owned};

verus! {

/// Main axis of a strip.
#[derive(Clone, Copy, Debug, PartialEq, Eq, Structural)]
pub enum FlexDirection {
    /// Left to right.
    Row,
    /// Top to bottom.
    Column,
}

impl FlexDirection {
    /// Whether the axis is horizontal.
    pub fn is_row(&self) -> (r: bool)
        ensures
            r == (*self == FlexDirection::Row),
    {
        match self {
            FlexDirection::Row => true,
            FlexDirection::Column => false,
        }
    }
}

/// Which end of the strip a segment caps: only outer corners round.
#[derive(Clone, Copy, Debug, PartialEq, Eq, Structural)]
pub enum SegmentEnd {
    /// An interior segment.
    Middle,
    /// The first segment.
    First,
    /// The last segment.
    Last,
    /// The only segment.
    Only,
}

/// The end kind of segment `i` in a strip of `n`.
pub open spec fn end_of(i: int, n: int) -> SegmentEnd {
    if i == 0 && n == 1 {
        SegmentEnd::Only
    } else if i == 0 {
        SegmentEnd::First
    } else if i == n - 1 {
        SegmentEnd::Last
    } else {
        SegmentEnd::Middle
    }
}

/// The state of one segment.
pub struct SegmentView {
    pub label: Seq<char>,
    pub selected: bool,
    pub focused: bool,
    pub pos_in_set: usize,
    pub set_size: usize,
    pub end: SegmentEnd,
    pub direction: FlexDirection,
    pub enabled: bool,
    pub activation_pending: bool,
    pub focus_pending: bool,
}

/// One segment inside a [`Segmented`] strip. Its selected, focused and
/// position fields mirror the group; activations are parked for the
/// group to apply.
#[derive(Debug)]
pub struct Segment {
    label: String,
    selected: bool,
    focused: bool,
    pos_in_set: usize,
    set_size: usize,
    end: SegmentEnd,
    direction: FlexDirection,
    enabled: bool,
    activation_pending: bool,
    focus_pending: bool,
}

impl View for Segment {
    type V = SegmentView;

    closed spec fn view(&self) -> SegmentView {
        SegmentView {
            label: self.label@,
            selected: self.selected,
            focused: self.focused,
            pos_in_set: self.pos_in_set,
            set_size: self.set_size,
            end: self.end,
            direction: self.direction,
            enabled: self.enabled,
            activation_pending: self.activation_pending,
            focus_pending: self.focus_pending,
        }
    }
}

impl Segment {
    /// A segment labelled `label`, not yet placed in a strip.
    pub fn new(label: &str) -> (s: Segment)
        ensures
            s@ == (SegmentView {
                label: label@,
                selected: false,
                focused: false,
                pos_in_set: 0,
                set_size: 0,
                end: SegmentEnd::Middle,
                direction: FlexDirection::Row,
                enabled: true,
                activation_pending: false,
                focus_pending: false,
            }),
    {
        Segment {
            label: owned(label),
            selected: false,
            focused: false,
            pos_in_set: 0,
            set_size: 0,
            end: SegmentEnd::Middle,
            direction: FlexDirection::Row,
            enabled: true,
            activation_pending: false,
            focus_pending: false,
        }
    }

    /// The segment's label.
    pub fn label(&self) -> (r: &str)
        ensures
            r@ == self@.label,
    {
        self.label.as_str()
    }

    /// A pointer press on the segment: a primary press parks an
    /// activation and asks for focus.
    pub fn pointer_pressed(&mut self, button: PointerButton) -> (r: EventResponse)
        ensures
            old(self)@.enabled && button == PointerButton::Primary ==> {
                &&& final(self)@ == (SegmentView { activation_pending: true, ..old(self)@ })
                &&& r == EventResponse::CaptureFocus
            },
            !(old(self)@.enabled && button == PointerButton::Primary) ==> {
                &&& final(self)@ == old(self)@
                &&& r == EventResponse::Ignored
            },
    {
        if !self.enabled {
            return EventResponse::Ignored;
        }
        match button {
            PointerButton::Primary => {
                self.activation_pending = true;
                EventResponse::CaptureFocus
            },
            _ => EventResponse::Ignored,
        }
    }

    /// An accessibility action on the segment: `Click` parks an
    /// activation, `Focus` parks a focus move.
    pub fn semantic_action(&mut self, action: SemanticAction) -> (r: EventResponse)
        ensures
            !old(self)@.enabled ==> final(self)@ == old(self)@ && r == EventResponse::Ignored,
            old(self)@.enabled && action == SemanticAction::Click ==> {
                &&& final(self)@ == (SegmentView { activation_pending: true, ..old(self)@ })
                &&& r == EventResponse::Handled
            },
            old(self)@.enabled && action == SemanticAction::Focus ==> {
                &&& final(self)@ == (SegmentView { focus_pending: true, ..old(self)@ })
                &&& r == EventResponse::CaptureFocus
            },
            old(self)@.enabled && action != SemanticAction::Click && action
                != SemanticAction::Focus ==> final(self)@ == old(self)@ && r
                == EventResponse::Ignored,
    {
        if !self.enabled {
            return EventResponse::Ignored;
        }
        match action {
            SemanticAction::Click => {
                self.activation_pending = true;
                EventResponse::Handled
            },
            SemanticAction::Focus => {
                self.focus_pending = true;
                EventResponse::CaptureFocus
            },
            _ => EventResponse::Ignored,
        }
    }

    /// The accessibility node: a radio button, checked when selected,
    /// advertising `Focus` only when it holds the roving tab stop.
    pub fn accessibility(&self) -> (n: AccessNode)
        ensures
            n.role == Role::RadioButton,
            opt_text(n.label) == Some(self@.label),
            n.toggled == Some(self@.selected),
            n.position_in_set == Some(self@.pos_in_set),
            n.size_of_set == Some(self@.set_size),
            n.click_action,
            n.focus_action == self@.focused,
            n.disabled == !self@.enabled,
            n.value.is_none(),
            n.description.is_none(),
            n.orientation.is_none(),
            !n.busy,
            !n.has_popup_menu,
    {
        let mut n = AccessNode::new(Role::RadioButton);
        n.label = Some(self.label.clone());
        n.toggled = Some(self.selected);
        n.position_in_set = Some(self.pos_in_set);
        n.size_of_set = Some(self.set_size);
        n.click_action = true;
        n.focus_action = self.focused;
        n.disabled = !self.enabled;
        n
    }
}

} // verus!

verus! {

/// Selection state of a strip: selected index, focused index, and the
/// change not yet drained.
pub type Selection = (usize, usize, Option<usize>);

/// `i` clamped into `0..n` (0 for an empty strip).
pub open spec fn clamp_index(i: usize, n: nat) -> usize {
    if n > 0 {
        if i < n {
            i
        } else {
            (n - 1) as usize
        }
    } else {
        0
    }
}

/// Selecting `index` in a strip of `n`: in range it moves selection and
/// focus there and records a change when the selection moved; out of
/// range nothing happens.
pub open spec fn select_sel(s: Selection, n: nat, index: usize) -> Selection {
    if index < n {
        (index, index, if s.0 != index { Some(index) } else { s.2 })
    } else {
        s
    }
}

/// An optional index as an integer.
pub open spec fn opt_index(o: Option<usize>) -> Option<int> {
    match o {
        Some(i) => Some(i as int),
        None => None,
    }
}

/// The last segment with a parked activation.
pub open spec fn last_activation(segs: Seq<SegmentView>) -> Option<int>
    decreases segs.len(),
{
    if segs.len() == 0 {
        None
    } else if segs.last().activation_pending {
        Some(segs.len() - 1)
    } else {
        last_activation(segs.drop_last())
    }
}

/// The last segment with a parked focus move.
pub open spec fn last_focus(segs: Seq<SegmentView>) -> Option<int>
    decreases segs.len(),
{
    if segs.len() == 0 {
        None
    } else if segs.last().focus_pending {
        Some(segs.len() - 1)
    } else {
        last_focus(segs.drop_last())
    }
}

/// Selection after applying the parked marks: an activation selects
/// its segment; otherwise a focus move only moves the focus.
pub open spec fn poll_sel(segs: Seq<SegmentView>, s: Selection) -> Selection {
    match last_activation(segs) {
        Some(i) => select_sel(s, segs.len(), i as usize),
        None => match last_focus(segs) {
            Some(j) => (clamp_index(s.0, segs.len()), j as usize, s.2),
            None => s,
        },
    }
}

/// The index one step from `focused` (forward or back) with
/// wraparound in a strip of `n > 0`.
pub open spec fn step_index(focused: usize, n: nat, forward: bool) -> usize {
    if forward {
        ((focused + 1) % (n as int)) as usize
    } else {
        ((focused - 1) % (n as int)) as usize
    }
}

/// Selection after a key in a strip of `n`.
pub open spec fn key_sel(k: Key, n: nat, s: Selection) -> Selection {
    match k {
        Key::ArrowDown | Key::ArrowRight => if n == 0 {
            s
        } else {
            select_sel(s, n, step_index(s.1, n, true))
        },
        Key::ArrowUp | Key::ArrowLeft => if n == 0 {
            s
        } else {
            select_sel(s, n, step_index(s.1, n, false))
        },
        Key::Home => select_sel(s, n, 0),
        Key::End => select_sel(s, n, if n > 0 { (n - 1) as usize } else { 0 }),
        Key::Space | Key::Blank | Key::Enter => select_sel(s, n, s.1),
        _ => s,
    }
}

/// Whether a key acts on a strip.
pub open spec fn key_acts(k: Key) -> bool {
    match k {
        Key::ArrowDown | Key::ArrowRight | Key::ArrowUp | Key::ArrowLeft | Key::Home | Key::End
        | Key::Space | Key::Blank | Key::Enter => true,
        _ => false,
    }
}

/// Whether segment `s` mirrors position `i` of a strip of `n` with the
/// given group state.
pub open spec fn mirrors(
    s: SegmentView,
    i: int,
    n: nat,
    sel: Selection,
    direction: FlexDirection,
    enabled: bool,
) -> bool {
    &&& s.selected == (i == sel.0)
    &&& s.focused == (i == sel.1)
    &&& s.pos_in_set == i
    &&& s.set_size == n
    &&& s.end == end_of(i, n as int)
    &&& s.direction == direction
    &&& s.enabled == enabled
}

/// Two segments carry the same label and parked marks.
pub open spec fn same_content(a: SegmentView, b: SegmentView) -> bool {
    a.label == b.label && a.activation_pending == b.activation_pending && a.focus_pending
        == b.focus_pending
}

/// Same labels, marks cleared.
pub open spec fn drained(a: SegmentView, b: SegmentView) -> bool {
    a.label == b.label && !a.activation_pending && !a.focus_pending
}

/// A single-select segmented strip.
#[derive(Debug)]
pub struct Segmented {
    /// Accessible label of the group.
    pub label: Option<String>,
    /// Whether the group accepts input.
    pub enabled: bool,
    /// Strip direction.
    pub direction: FlexDirection,
    segments: Vec<Segment>,
    selected: usize,
    focused: usize,
    changed: Option<usize>,
}

/// The state of a strip beyond its public fields.
pub struct SegmentedView {
    pub label: Option<Seq<char>>,
    pub enabled: bool,
    pub direction: FlexDirection,
    pub segments: Seq<SegmentView>,
    pub selected: usize,
    pub focused: usize,
    pub changed: Option<usize>,
}

impl View for Segmented {
    type V = SegmentedView;

    closed spec fn view(&self) -> SegmentedView {
        SegmentedView {
            label: opt_text(self.label),
            enabled: self.enabled,
            direction: self.direction,
            segments: self.segments@.map_values(|s: Segment| s@),
            selected: self.selected,
            focused: self.focused,
            changed: self.changed,
        }
    }
}

impl Segmented {
    /// The selection state.
    pub open spec fn sel(&self) -> Selection {
        (self@.selected, self@.focused, self@.changed)
    }

    /// Number of segments.
    pub open spec fn n(&self) -> nat {
        self@.segments.len()
    }

    /// The strip is in sync: indices in range and every segment
    /// mirroring the group.
    pub open spec fn wf(&self) -> bool {
        &&& self.n() > 0 ==> self@.selected < self.n() && self@.focused < self.n()
        &&& self.n() == 0 ==> self@.selected == 0 && self@.focused == 0
        &&& forall|i: int|
            0 <= i < self.n() ==> mirrors(
                #[trigger] self@.segments[i],
                i,
                self.n(),
                self.sel(),
                self@.direction,
                self@.enabled,
            )
    }

    /// Everything but the selection state and the segment mirrors is
    /// as in `other`, and the segments hold the same content.
    pub open spec fn same_besides_selection(&self, other: &Segmented) -> bool {
        &&& self@.label == other@.label
        &&& self@.enabled == other@.enabled
        &&& self@.direction == other@.direction
        &&& self.n() == other.n()
        &&& forall|i: int|
            0 <= i < self.n() ==> same_content(#[trigger] self@.segments[i], other@.segments[i])
    }

    proof fn lemma_view_index(&self, i: int)
        requires
            0 <= i < self.segments.len(),
        ensures
            self@.segments[i] == self.segments@[i]@,
            self.n() == self.segments@.len(),
    {
    }

    /// An empty, enabled, horizontal strip.
    pub fn new() -> (s: Segmented)
        ensures
            s.wf(),
            s.n() == 0,
            s.sel() == (0usize, 0usize, None::<usize>),
            s@.label.is_none(),
            s@.enabled,
            s@.direction == FlexDirection::Row,
    {
        let s = Segmented {
            label: None,
            enabled: true,
            direction: FlexDirection::Row,
            segments: Vec::new(),
            selected: 0,
            focused: 0,
            changed: None,
        };
        assert(s@.segments =~= Seq::<SegmentView>::empty());
        s
    }

    /// Mirrors the group state onto the segments, clamping the
    /// selected and focused indices into the strip first.
    fn sync_options(&mut self)
        ensures
            final(self).wf(),
            final(self).same_besides_selection(old(self)),
            final(self)@.selected == clamp_index(old(self)@.selected, old(self).n()),
            final(self)@.focused == clamp_index(old(self)@.focused, old(self).n()),
            final(self)@.changed == old(self)@.changed,
    {
        let n = self.segments.len();
        if n > 0 {
            if self.selected > n - 1 {
                self.selected = n - 1;
            }
            if self.focused > n - 1 {
                self.focused = n - 1;
            }
        } else {
            self.selected = 0;
            self.focused = 0;
        }
        let mut i: usize = 0;
        while i < n
            invariant
                n == self.segments.len(),
                n == old(self).segments.len(),
                i <= n,
                self.selected == clamp_index(old(self)@.selected, n as nat),
                self.focused == clamp_index(old(self)@.focused, n as nat),
                self.changed == old(self).changed,
                self.label == old(self).label,
                self.enabled == old(self).enabled,
                self.direction == old(self).direction,
                forall|j: int|
                    0 <= j < n ==> same_content(
                        #[trigger] self.segments@[j]@,
                        old(self).segments@[j]@,
                    ),
                forall|j: int|
                    0 <= j < i ==> mirrors(
                        #[trigger] self.segments@[j]@,
                        j,
                        n as nat,
                        (self.selected, self.focused, self.changed),
                        self.direction,
                        self.enabled,
                    ),
            decreases n - i,
        {
            let sel = self.selected;
            let foc = self.focused;
            let dir = self.direction;
            let en = self.enabled;
            let end = if i == 0 && n == 1 {
                SegmentEnd::Only
            } else if i == 0 {
                SegmentEnd::First
            } else if i == n - 1 {
                SegmentEnd::Last
            } else {
                SegmentEnd::Middle
            };
            let ghost before = self.segments@;
            let seg = &mut self.segments[i];
            seg.selected = i == sel;
            seg.focused = i == foc;
            seg.pos_in_set = i;
            seg.set_size = n;
            seg.end = end;
            seg.direction = dir;
            seg.enabled = en;
            assert(forall|j: int|
                0 <= j < n && j != i ==> self.segments@[j] == before[j]);
            assert(same_content(self.segments@[i as int]@, before[i as int]@));
            i = i + 1;
        }
        proof {
            assert forall|j: int| 0 <= j < n implies mirrors(
                #[trigger] self@.segments[j],
                j,
                self.n(),
                self.sel(),
                self@.direction,
                self@.enabled,
            ) by {
                self.lemma_view_index(j);
            }
            assert forall|j: int| 0 <= j < n implies same_content(
                #[trigger] self@.segments[j],
                old(self)@.segments[j],
            ) by {
                self.lemma_view_index(j);
                old(self).lemma_view_index(j);
            }
        }
    }

    /// Appends one option.
    pub fn option(self, label: &str) -> (s: Segmented)
        ensures
            s.wf(),
            s.n() == self.n() + 1,
            s@.label == self@.label,
            s@.enabled == self@.enabled,
            s@.direction == self@.direction,
            forall|i: int| 0 <= i < self.n() ==> same_content(#[trigger] s@.segments[i], self@.segments[i]),
            s@.segments.last().label == label@,
            !s@.segments.last().activation_pending,
            !s@.segments.last().focus_pending,
            s@.selected == clamp_index(self@.selected, s.n()),
            s@.focused == clamp_index(self@.focused, s.n()),
            s@.changed == self@.changed,
    {
        let mut s = self;
        let ghost before = s.segments@;
        s.segments.push(Segment::new(label));
        proof {
            assert forall|i: int| 0 <= i < before.len() implies s.segments@[i] == before[i] by {}
        }
        let ghost pushed = s;
        s.sync_options();
        proof {
            assert forall|i: int| 0 <= i < self.n() implies same_content(
                #[trigger] s@.segments[i],
                self@.segments[i],
            ) by {
                pushed.lemma_view_index(i);
                self.lemma_view_index(i);
            }
            pushed.lemma_view_index(pushed.segments.len() - 1);
        }
        s
    }

    /// Appends a batch of options, in order.
    pub fn options(self, labels: Vec<&str>) -> (s: Segmented)
        ensures
            s.wf(),
            s.n() == self.n() + labels.len(),
            s@.label == self@.label,
            s@.enabled == self@.enabled,
            s@.direction == self@.direction,
            forall|i: int| 0 <= i < self.n() ==> same_content(#[trigger] s@.segments[i], self@.segments[i]),
            forall|k: int|
                0 <= k < labels.len() ==> {
                    let t = #[trigger] s@.segments[self.n() + k];
                    t.label == labels@[k]@ && !t.activation_pending && !t.focus_pending
                },
            s@.selected == clamp_index(self@.selected, s.n()),
            s@.focused == clamp_index(self@.focused, s.n()),
            s@.changed == self@.changed,
    {
        let mut s = self;
        let n0 = s.segments.len();
        let mut k: usize = 0;
        while k < labels.len()
            invariant
                s.segments.len() == n0 + k,
                n0 == self.segments.len(),
                k <= labels.len(),
                s.label == self.label,
                s.enabled == self.enabled,
                s.direction == self.direction,
                s.selected == self.selected,
                s.focused == self.focused,
                s.changed == self.changed,
                forall|i: int| 0 <= i < n0 ==> #[trigger] s.segments@[i] == self.segments@[i],
                forall|j: int|
                    0 <= j < k ==> {
                        let t = #[trigger] s.segments@[n0 + j]@;
                        t.label == labels@[j]@ && !t.activation_pending && !t.focus_pending
                    },
            decreases labels.len() - k,
        {
            let ghost before = s.segments@;
            s.segments.push(Segment::new(labels[k]));
            proof {
                assert forall|i: int| 0 <= i < n0 + k implies s.segments@[i] == before[i] by {}
            }
            k = k + 1;
        }
        let ghost pushed = s;
        s.sync_options();
        proof {
            assert forall|i: int| 0 <= i < self.n() implies same_content(
                #[trigger] s@.segments[i],
                self@.segments[i],
            ) by {
                pushed.lemma_view_index(i);
                self.lemma_view_index(i);
            }
            assert forall|j: int| 0 <= j < labels.len() implies {
                let t = #[trigger] s@.segments[self.n() + j];
                t.label == labels@[j]@ && !t.activation_pending && !t.focus_pending
            } by {
                pushed.lemma_view_index(n0 + j);
                assert(self.n() == n0);
            }
        }
        s
    }

    /// Sets the group's accessible label.
    pub fn label(self, label: &str) -> (s: Segmented)
        ensures
            s@ == (SegmentedView { label: Some(label@), ..self@ }),
    {
        let mut s = self;
        s.label = Some(owned(label));
        s
    }

    /// Sets the strip direction.
    pub fn direction(self, direction: FlexDirection) -> (s: Segmented)
        ensures
            s.wf(),
            s@.direction == direction,
            s@.label == self@.label,
            s@.enabled == self@.enabled,
            s.n() == self.n(),
            forall|i: int| 0 <= i < self.n() ==> same_content(#[trigger] s@.segments[i], self@.segments[i]),
            s@.selected == clamp_index(self@.selected, self.n()),
            s@.focused == clamp_index(self@.focused, self.n()),
            s@.changed == self@.changed,
    {
        let mut s = self;
        s.direction = direction;
        s.sync_options();
        s
    }

    /// Sets whether the group accepts input.
    pub fn enabled(self, enabled: bool) -> (s: Segmented)
        ensures
            s.wf(),
            s@.enabled == enabled,
            s@.label == self@.label,
            s@.direction == self@.direction,
            s.n() == self.n(),
            forall|i: int| 0 <= i < self.n() ==> same_content(#[trigger] s@.segments[i], self@.segments[i]),
            s@.selected == clamp_index(self@.selected, self.n()),
            s@.focused == clamp_index(self@.focused, self.n()),
            s@.changed == self@.changed,
    {
        let mut s = self;
        s.enabled = enabled;
        s.sync_options();
        s
    }

    /// Builder form of [`Segmented::set_selected`].
    pub fn selected(self, index: usize) -> (s: Segmented)
        ensures
            s.sel() == select_sel(self.sel(), self.n(), index),
            s.same_besides_selection(&self),
            index < self.n() ==> s.wf(),
            index >= self.n() ==> s@ == self@,
    {
        let mut s = self;
        s.set_selected(index);
        s
    }

    /// Number of options.
    pub fn option_count(&self) -> (r: usize)
        ensures
            r == self.n(),
    {
        self.segments.len()
    }

    /// Index of the selected segment.
    pub fn selected_index(&self) -> (r: usize)
        ensures
            r == self@.selected,
    {
        self.selected
    }

    /// Index of the segment holding the roving tab stop.
    pub fn focused_index(&self) -> (r: usize)
        ensures
            r == self@.focused,
    {
        self.focused
    }

    /// Selects `index`, moving the focus with it; out-of-range indices
    /// are ignored. An effective change is parked for
    /// [`Segmented::take_selected`].
    pub fn set_selected(&mut self, index: usize)
        ensures
            final(self).sel() == select_sel(old(self).sel(), old(self).n(), index),
            final(self).same_besides_selection(old(self)),
            index < old(self).n() ==> final(self).wf(),
            index >= old(self).n() ==> final(self)@ == old(self)@,
    {
        if index < self.segments.len() {
            if self.selected != index {
                self.changed = Some(index);
            }
            self.selected = index;
            self.focused = index;
            self.sync_options();
        }
    }

    /// Moves the roving tab stop one step with wraparound and selects
    /// the newly focused segment.
    fn move_focus(&mut self, forward: bool)
        ensures
            final(self).sel() == (if old(self).n() == 0 {
                old(self).sel()
            } else {
                select_sel(
                    old(self).sel(),
                    old(self).n(),
                    step_index(old(self)@.focused, old(self).n(), forward),
                )
            }),
            final(self).same_besides_selection(old(self)),
            old(self).n() > 0 ==> final(self).wf(),
            old(self).n() == 0 ==> final(self)@ == old(self)@,
    {
        let n = self.segments.len();
        if n == 0 {
            return;
        }
        let f = self.focused;
        let r = f % n;
        let next = if forward {
            if r + 1 == n {
                0
            } else {
                r + 1
            }
        } else {
            if r == 0 {
                n - 1
            } else {
                r - 1
            }
        };
        proof {
            let ni = n as int;
            let fi = f as int;
            vstd::arithmetic::div_mod::lemma_mod_bound(fi, ni);
            if forward {
                vstd::arithmetic::div_mod::lemma_add_mod_noop_right(1, fi, ni);
                if r + 1 == n {
                    vstd::arithmetic::div_mod::lemma_mod_self_0(ni);
                } else {
                    vstd::arithmetic::div_mod::lemma_small_mod((r + 1) as nat, n as nat);
                }
                assert(next as int == (fi + 1) % ni);
            } else {
                vstd::arithmetic::div_mod::lemma_add_mod_noop_right(-1, fi, ni);
                if r == 0 {
                    vstd::arithmetic::div_mod::lemma_mod_add_multiples_vanish(-1, ni);
                    vstd::arithmetic::div_mod::lemma_small_mod((n - 1) as nat, n as nat);
                } else {
                    vstd::arithmetic::div_mod::lemma_small_mod((r - 1) as nat, n as nat);
                }
                assert(next as int == (fi - 1) % ni);
            }
        }
        self.set_selected(next);
    }

    /// Returns the newly selected index once after each effective
    /// selection change.
    pub fn take_selected(&mut self) -> (r: Option<usize>)
        ensures
            r == old(self)@.changed,
            final(self)@ == (SegmentedView { changed: None, ..old(self)@ }),
    {
        self.changed.take()
    }

    /// Applies activations and focus moves parked on the segments:
    /// the last parked activation selects its segment; without one,
    /// the last parked focus move moves the tab stop. All marks are
    /// cleared.
    pub fn poll_pending(&mut self)
        ensures
            final(self).sel() == poll_sel(old(self)@.segments, old(self).sel()),
            final(self)@.label == old(self)@.label,
            final(self)@.enabled == old(self)@.enabled,
            final(self)@.direction == old(self)@.direction,
            final(self).n() == old(self).n(),
            forall|i: int|
                0 <= i < old(self).n() ==> drained(
                    #[trigger] final(self)@.segments[i],
                    old(self)@.segments[i],
                ),
            last_activation(old(self)@.segments) is Some || last_focus(old(self)@.segments) is Some
                ==> final(self).wf(),
            last_activation(old(self)@.segments) is None && last_focus(old(self)@.segments) is None
                ==> final(self)@ == old(self)@,
    {
        let n = self.segments.len();
        let ghost segs = old(self)@.segments;
        let mut activate: Option<usize> = None;
        let mut focus: Option<usize> = None;
        let mut i: usize = 0;
        while i < n
            invariant
                n == self.segments.len(),
                n == old(self).segments.len(),
                segs == old(self)@.segments,
                i <= n,
                self.label == old(self).label,
                self.enabled == old(self).enabled,
                self.direction == old(self).direction,
                self.selected == old(self).selected,
                self.focused == old(self).focused,
                self.changed == old(self).changed,
                opt_index(activate) == last_activation(segs.take(i as int)),
                opt_index(focus) == last_focus(segs.take(i as int)),
                forall|j: int|
                    0 <= j < i ==> #[trigger] self.segments@[j]@ == (SegmentView {
                        activation_pending: false,
                        focus_pending: false,
                        ..old(self).segments@[j]@
                    }),
                forall|j: int| i <= j < n ==> #[trigger] self.segments@[j] == old(self).segments@[j],
            decreases n - i,
        {
            proof {
                old(self).lemma_view_index(i as int);
                lemma_last_take(segs, i as int);
            }
            let ghost before = self.segments@;
            let seg = &mut self.segments[i];
            if seg.activation_pending {
                seg.activation_pending = false;
                activate = Some(i);
            }
            if seg.focus_pending {
                seg.focus_pending = false;
                focus = Some(i);
            }
            assert(forall|j: int| 0 <= j < n && j != i ==> self.segments@[j] == before[j]);
            i = i + 1;
        }
        proof {
            assert(segs.take(n as int) =~= segs);
            lemma_last_bounds(segs);
        }
        let ghost cleared = *self;
        proof {
            assert forall|j: int| 0 <= j < n implies drained(
                #[trigger] cleared@.segments[j],
                segs[j],
            ) by {
                cleared.lemma_view_index(j);
                old(self).lemma_view_index(j);
            }
        }
        if let Some(index) = activate {
            self.set_selected(index);
        } else if let Some(index) = focus {
            self.focused = index;
            self.sync_options();
        } else {
            proof {
                lemma_none_pending(segs);
                assert forall|j: int| 0 <= j < n implies #[trigger] self@.segments[j] == segs[j] by {
                    self.lemma_view_index(j);
                    old(self).lemma_view_index(j);
                }
                assert(self@.segments =~= segs);
            }
        }
    }

    /// A key press: arrows move the focus with wraparound and select,
    /// `Home`/`End` select the ends, `Space`/`Enter` select the focused
    /// segment. Parked marks are applied first.
    pub fn key_pressed(&mut self, key: &str) -> (r: EventResponse)
        ensures
            !old(self)@.enabled ==> final(self)@ == old(self)@ && r == EventResponse::Ignored,
            old(self)@.enabled ==> {
                &&& final(self).sel() == key_sel(
                    key_of(key@),
                    old(self).n(),
                    poll_sel(old(self)@.segments, old(self).sel()),
                )
                &&& r == (if key_acts(key_of(key@)) {
                    EventResponse::RequestRepaint
                } else {
                    EventResponse::Ignored
                })
                &&& final(self).kept_from(old(self))
            },
            old(self).wf() ==> final(self).wf(),
    {
        if !self.enabled {
            return EventResponse::Ignored;
        }
        self.poll_pending();
        let k = Key::from_name(key);
        match k {
            Key::ArrowDown | Key::ArrowRight => {
                self.move_focus(true);
                EventResponse::RequestRepaint
            },
            Key::ArrowUp | Key::ArrowLeft => {
                self.move_focus(false);
                EventResponse::RequestRepaint
            },
            Key::Home => {
                self.set_selected(0);
                EventResponse::RequestRepaint
            },
            Key::End => {
                let last = self.segments.len().saturating_sub(1);
                self.set_selected(last);
                EventResponse::RequestRepaint
            },
            Key::Space | Key::Blank | Key::Enter => {
                let f = self.focused;
                self.set_selected(f);
                EventResponse::RequestRepaint
            },
            _ => EventResponse::Ignored,
        }
    }

    /// Labels, public fields and segment count as in `old`, with every
    /// parked mark cleared.
    pub open spec fn kept_from(&self, old: &Segmented) -> bool {
        &&& self@.label == old@.label
        &&& self@.enabled == old@.enabled
        &&& self@.direction == old@.direction
        &&& self.n() == old.n()
        &&& forall|i: int|
            0 <= i < old.n() ==> drained(#[trigger] self@.segments[i], old@.segments[i])
    }

    /// An accessibility action on the group: `Click` selects the
    /// focused segment, `Focus` asks for focus.
    pub fn semantic_action(&mut self, action: SemanticAction) -> (r: EventResponse)
        ensures
            !old(self)@.enabled ==> final(self)@ == old(self)@ && r == EventResponse::Ignored,
            old(self)@.enabled ==> {
                let p = poll_sel(old(self)@.segments, old(self).sel());
                &&& final(self).sel() == (if action == SemanticAction::Click {
                    select_sel(p, old(self).n(), p.1)
                } else {
                    p
                })
                &&& r == (if action == SemanticAction::Click {
                    EventResponse::RequestRepaint
                } else if action == SemanticAction::Focus {
                    EventResponse::CaptureFocus
                } else {
                    EventResponse::Ignored
                })
                &&& final(self).kept_from(old(self))
            },
            old(self).wf() ==> final(self).wf(),
    {
        if !self.enabled {
            return EventResponse::Ignored;
        }
        self.poll_pending();
        match action {
            SemanticAction::Click => {
                let f = self.focused;
                self.set_selected(f);
                EventResponse::RequestRepaint
            },
            SemanticAction::Focus => EventResponse::CaptureFocus,
            _ => EventResponse::Ignored,
        }
    }

    /// Whether segment `i` accepts a press once the parked marks of
    /// `self` are applied.
    pub open spec fn enabled_after_poll(&self, i: int) -> bool {
        if last_activation(self@.segments) is Some || last_focus(self@.segments) is Some {
            self@.enabled
        } else {
            self@.segments[i].enabled
        }
    }

    /// Whether a press with `button` on segment `hit` selects it.
    pub open spec fn press_lands(&self, button: PointerButton, hit: Option<usize>) -> bool {
        &&& button == PointerButton::Primary
        &&& hit is Some
        &&& hit.unwrap() < self.n()
        &&& self.enabled_after_poll(hit.unwrap() as int)
    }

    /// A pointer press; `hit` is the segment under the pointer, if
    /// any. A primary press on an enabled segment selects it.
    pub fn pointer_pressed(&mut self, button: PointerButton, hit: Option<usize>) -> (r:
        EventResponse)
        ensures
            !old(self)@.enabled ==> final(self)@ == old(self)@ && r == EventResponse::Ignored,
            old(self)@.enabled ==> {
                let p = poll_sel(old(self)@.segments, old(self).sel());
                &&& old(self).press_lands(button, hit) ==> {
                    &&& final(self).sel() == select_sel(p, old(self).n(), hit.unwrap())
                    &&& r == EventResponse::CaptureFocus
                }
                &&& !old(self).press_lands(button, hit) ==> {
                    &&& final(self).sel() == p
                    &&& r == EventResponse::Ignored
                }
                &&& final(self).kept_from(old(self))
            },
            old(self).wf() ==> final(self).wf(),
    {
        if !self.enabled {
            return EventResponse::Ignored;
        }
        self.poll_pending();
        let ghost mid = *self;
        proof {
            lemma_none_pending(old(self)@.segments);
            if !(last_activation(old(self)@.segments) is Some || last_focus(old(self)@.segments) is Some) {
                assert(mid@ == old(self)@);
            }
        }
        match button {
            PointerButton::Primary => {
                let mut response = EventResponse::Ignored;
                if let Some(i) = hit {
                    if i < self.segments.len() {
                        proof {
                            mid.lemma_view_index(i as int);
                        }
                        let ghost before = self.segments@;
                        response = self.segments[i].pointer_pressed(button);
                        proof {
                            assert forall|j: int| 0 <= j < self.segments.len() && j != i implies
                                self.segments@[j] == before[j] by {}
                            assert forall|j: int| 0 <= j < self.segments.len() implies {
                                let v = #[trigger] self@.segments[j];
                                (j != i ==> !v.activation_pending) && !v.focus_pending && v.label
                                    == old(self)@.segments[j].label
                                    && (j == i ==> v.activation_pending == mid@.segments[j].enabled)
                            } by {
                                self.lemma_view_index(j);
                                mid.lemma_view_index(j);
                            }
                            lemma_single_mark(self@.segments, i as int);
                        }
                    } else {
                        proof {
                            lemma_single_mark(self@.segments, -1);
                        }
                    }
                } else {
                    proof {
                        lemma_single_mark(self@.segments, -1);
                    }
                }
                let ghost pressed = *self;
                self.poll_pending();
                proof {
                    assert forall|j: int| 0 <= j < old(self).n() implies drained(
                        #[trigger] self@.segments[j],
                        old(self)@.segments[j],
                    ) by {
                        assert(drained(self@.segments[j], pressed@.segments[j]));
                    }
                }
                response
            },
            _ => EventResponse::Ignored,
        }
    }

    /// The group's accessibility node: a radio group with the strip's
    /// orientation.
    pub fn accessibility(&self) -> (n: AccessNode)
        ensures
            n.role == Role::RadioGroup,
            opt_text(n.label) == self@.label,
            n.orientation == Some(
                if self@.direction == FlexDirection::Row {
                    Orientation::Horizontal
                } else {
                    Orientation::Vertical
                },
            ),
            n.disabled == !self@.enabled,
            n.value.is_none(),
            n.description.is_none(),
            n.toggled.is_none(),
            n.position_in_set.is_none(),
            n.size_of_set.is_none(),
            !n.busy,
            !n.click_action,
            !n.focus_action,
            !n.has_popup_menu,
    {
        let mut n = AccessNode::new(Role::RadioGroup);
        n.label = match &self.label {
            Some(l) => Some(l.clone()),
            None => None,
        };
        n.orientation = Some(
            if self.direction.is_row() {
                Orientation::Horizontal
            } else {
                Orientation::Vertical
            },
        );
        n.disabled = !self.enabled;
        n
    }

    /// Number of child segments.
    pub fn child_count(&self) -> (r: usize)
        ensures
            r == self.n(),
    {
        self.segments.len()
    }

    /// Child segment `index`.
    pub fn child(&self, index: usize) -> (r: Option<&Segment>)
        ensures
            index < self.n() ==> r is Some && r.unwrap()@ == self@.segments[index as int],
            index >= self.n() ==> r is None,
    {
        if index < self.segments.len() {
            Some(&self.segments[index])
        } else {
            None
        }
    }

    /// Child segment `index`, for delivering events to it; the group
    /// applies what it parks on the next [`Segmented::poll_pending`].
    pub fn child_mut(&mut self, index: usize) -> (r: Option<&mut Segment>)
        ensures
            index < old(self).n() <==> r is Some,
            index >= old(self).n() ==> final(self)@ == old(self)@,
            index < old(self).n() ==> (*r.unwrap())@ == old(self)@.segments[index as int],
            index < old(self).n() ==> final(self)@.segments =~= old(self)@.segments.update(
                index as int,
                (*final(r.unwrap()))@,
            ),
            index < old(self).n() ==> final(self)@ == (SegmentedView {
                segments: final(self)@.segments,
                ..old(self)@
            }),
    {
        if index < self.segments.len() {
            Some(&mut self.segments[index])
        } else {
            None
        }
    }
}

/// The last mark found in the first `i + 1` segments is segment `i`'s
/// when it carries one, else the last in the first `i`.
proof fn lemma_last_take(segs: Seq<SegmentView>, i: int)
    requires
        0 <= i < segs.len(),
    ensures
        last_activation(segs.take(i + 1)) == (if segs[i].activation_pending {
            Some(i)
        } else {
            last_activation(segs.take(i))
        }),
        last_focus(segs.take(i + 1)) == (if segs[i].focus_pending {
            Some(i)
        } else {
            last_focus(segs.take(i))
        }),
{
    assert(segs.take(i + 1).drop_last() =~= segs.take(i));
    assert(segs.take(i + 1).last() == segs[i]);
}

/// A found mark names a segment of the strip, and carries the mark.
proof fn lemma_last_bounds(segs: Seq<SegmentView>)
    ensures
        last_activation(segs) matches Some(i) ==> 0 <= i < segs.len() && segs[i].activation_pending,
        last_focus(segs) matches Some(i) ==> 0 <= i < segs.len() && segs[i].focus_pending,
    decreases segs.len(),
{
    if segs.len() > 0 {
        lemma_last_bounds(segs.drop_last());
        assert forall|j: int| 0 <= j < segs.len() - 1 implies #[trigger] segs.drop_last()[j] == segs[j] by {}
        if let Some(i) = last_activation(segs.drop_last()) {
            assert(segs.drop_last()[i] == segs[i]);
        }
        if let Some(i) = last_focus(segs.drop_last()) {
            assert(segs.drop_last()[i] == segs[i]);
        }
    }
}

/// With at most one mark, an activation on segment `i` (or none when
/// `i` is out of range), the mark found is that one.
proof fn lemma_single_mark(segs: Seq<SegmentView>, i: int)
    requires
        forall|j: int| 0 <= j < segs.len() && j != i ==> !(#[trigger] segs[j]).activation_pending,
        forall|j: int| 0 <= j < segs.len() ==> !(#[trigger] segs[j]).focus_pending,
    ensures
        last_activation(segs) == (if 0 <= i < segs.len() && segs[i].activation_pending {
            Some(i)
        } else {
            None::<int>
        }),
        last_focus(segs) is None,
    decreases segs.len(),
{
    if segs.len() > 0 {
        let d = segs.drop_last();
        assert forall|j: int| 0 <= j < d.len() implies #[trigger] d[j] == segs[j] by {}
        lemma_single_mark(d, i);
    }
}

/// With no segment carrying a mark, polling applies nothing.
pub proof fn lemma_unmarked(segs: Seq<SegmentView>)
    requires
        forall|j: int|
            0 <= j < segs.len() ==> !(#[trigger] segs[j]).activation_pending
                && !segs[j].focus_pending,
    ensures
        last_activation(segs) is None,
        last_focus(segs) is None,
        forall|s: Selection| poll_sel(segs, s) == s,
{
    lemma_single_mark(segs, -1);
}

/// In a synced, non-empty strip exactly one segment is selected — the
/// one at the selected index — and exactly one segment holds the tab
/// stop, so exactly one child reports checked and exactly one
/// advertises focus.
pub proof fn lemma_single_selected(s: Segmented)
    requires
        s.wf(),
        s.n() > 0,
    ensures
        s@.selected < s.n(),
        s@.focused < s.n(),
        forall|i: int| 0 <= i < s.n() ==> ((#[trigger] s@.segments[i]).selected <==> i == s@.selected),
        forall|i: int| 0 <= i < s.n() ==> ((#[trigger] s@.segments[i]).focused <==> i == s@.focused),
        forall|i: int| 0 <= i < s.n() ==> (#[trigger] s@.segments[i]).pos_in_set == i && s@.segments[i].set_size == s.n(),
{
    assert forall|i: int| 0 <= i < s.n() implies ((#[trigger] s@.segments[i]).selected <==> i == s@.selected) by {
        assert(mirrors(s@.segments[i], i, s.n(), s.sel(), s@.direction, s@.enabled));
    }
    assert forall|i: int| 0 <= i < s.n() implies ((#[trigger] s@.segments[i]).focused <==> i == s@.focused) by {
        assert(mirrors(s@.segments[i], i, s.n(), s.sel(), s@.direction, s@.enabled));
    }
    assert forall|i: int| 0 <= i < s.n() implies (#[trigger] s@.segments[i]).pos_in_set == i && s@.segments[i].set_size == s.n() by {
        assert(mirrors(s@.segments[i], i, s.n(), s.sel(), s@.direction, s@.enabled));
    }
}

/// Selecting the already selected segment reports no change; selecting
/// another in-range segment reports exactly that index.
pub proof fn lemma_select_reports(s: Selection, n: nat, index: usize)
    requires
        index < n,
    ensures
        index == s.0 ==> select_sel(s, n, index).2 == s.2,
        index != s.0 ==> select_sel(s, n, index).2 == Some(index),
        select_sel(s, n, index).0 == index,
        select_sel(s, n, index).1 == index,
{
}

/// Arrow keys cycle: one step forward then one step back returns the
/// selection and the focus to the focused segment; from the last
/// segment a step forward wraps to the first.
pub proof fn lemma_arrows_cycle(s: Selection, n: nat)
    requires
        0 < n <= usize::MAX,
        s.1 < n,
    ensures
        key_sel(Key::ArrowLeft, n, key_sel(Key::ArrowRight, n, s)).0 == s.1,
        key_sel(Key::ArrowLeft, n, key_sel(Key::ArrowRight, n, s)).1 == s.1,
        key_sel(Key::ArrowRight, n, key_sel(Key::ArrowLeft, n, s)).0 == s.1,
        s.1 == n - 1 ==> key_sel(Key::ArrowRight, n, s).0 == 0,
        s.1 == 0 ==> key_sel(Key::ArrowLeft, n, s).0 == n - 1,
{
    let ni = n as int;
    let f = s.1 as int;
    if f + 1 < ni {
        vstd::arithmetic::div_mod::lemma_small_mod((f + 1) as nat, n);
    } else {
        vstd::arithmetic::div_mod::lemma_mod_self_0(ni);
    }
    let r = ((f + 1) % ni);
    vstd::arithmetic::div_mod::lemma_mod_bound(f + 1, ni);
    if r == 0 {
        vstd::arithmetic::div_mod::lemma_mod_add_multiples_vanish(-1, ni);
        vstd::arithmetic::div_mod::lemma_small_mod((ni - 1) as nat, n);
    } else {
        vstd::arithmetic::div_mod::lemma_small_mod((r - 1) as nat, n);
    }
    if f == 0 {
        vstd::arithmetic::div_mod::lemma_mod_add_multiples_vanish(-1, ni);
        vstd::arithmetic::div_mod::lemma_small_mod((ni - 1) as nat, n);
        vstd::arithmetic::div_mod::lemma_mod_self_0(ni);
    } else {
        vstd::arithmetic::div_mod::lemma_small_mod((f - 1) as nat, n);
        vstd::arithmetic::div_mod::lemma_small_mod(f as nat, n);
    }
}

/// Keys move the focus and the selection the way they point: right and
/// down go one segment on, left and up one segment back (wrapping at
/// the ends), `Home` goes to the first segment and `End` to the last,
/// and Space or Enter select the focused segment where it is.
pub proof fn lemma_keys_move_selection(s: Selection, n: nat)
    requires
        0 < n <= usize::MAX,
        s.1 < n,
    ensures
        s.1 + 1 < n ==> key_sel(Key::ArrowRight, n, s).0 == s.1 + 1
            && key_sel(Key::ArrowRight, n, s).1 == s.1 + 1,
        s.1 + 1 < n ==> key_sel(Key::ArrowDown, n, s).0 == s.1 + 1,
        s.1 > 0 ==> key_sel(Key::ArrowLeft, n, s).0 == s.1 - 1
            && key_sel(Key::ArrowLeft, n, s).1 == s.1 - 1,
        s.1 > 0 ==> key_sel(Key::ArrowUp, n, s).0 == s.1 - 1,
        s.1 == n - 1 ==> key_sel(Key::ArrowDown, n, s).0 == 0,
        s.1 == 0 ==> key_sel(Key::ArrowUp, n, s).0 == n - 1,
        key_sel(Key::Home, n, s).0 == 0 && key_sel(Key::Home, n, s).1 == 0,
        key_sel(Key::End, n, s).0 == n - 1 && key_sel(Key::End, n, s).1 == n - 1,
        key_sel(Key::Enter, n, s).0 == s.1 && key_sel(Key::Space, n, s).0 == s.1,
        key_sel(Key::Escape, n, s) == s,
{
    let ni = n as int;
    let f = s.1 as int;
    if f + 1 < ni {
        vstd::arithmetic::div_mod::lemma_small_mod((f + 1) as nat, n);
    } else {
        vstd::arithmetic::div_mod::lemma_mod_self_0(ni);
    }
    if f == 0 {
        vstd::arithmetic::div_mod::lemma_mod_add_multiples_vanish(-1, ni);
        vstd::arithmetic::div_mod::lemma_small_mod((ni - 1) as nat, n);
    } else {
        vstd::arithmetic::div_mod::lemma_small_mod((f - 1) as nat, n);
    }
}

/// With no mark found, no segment carries one.
proof fn lemma_none_pending(segs: Seq<SegmentView>)
    ensures
        last_activation(segs) is None ==> forall|j: int|
            0 <= j < segs.len() ==> !(#[trigger] segs[j]).activation_pending,
        last_focus(segs) is None ==> forall|j: int|
            0 <= j < segs.len() ==> !(#[trigger] segs[j]).focus_pending,
    decreases segs.len(),
{
    if segs.len() > 0 {
        lemma_none_pending(segs.drop_last());
        assert forall|j: int| 0 <= j < segs.len() - 1 implies #[trigger] segs[j] == segs.drop_last()[j] by {}
    }
}

} // verus!
