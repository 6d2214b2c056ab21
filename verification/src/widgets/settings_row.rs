//! `SettingsRow` and `SettingsGroup`: the preferences-pane row (leading
//! icon, title, optional subtitle, optional trailing control) and a
//! titled group of such rows.
//!
//! An activatable row parks an activation for
//! [`SettingsRow::take_activated`] when its body is pressed, on
//! `Enter`/`Space`, or on the accessibility click action. Presses on
//! the trailing zone belong to the trailing control and never
//! activate the row. Pointer positions reach the row already resolved
//! to the zone under them.

use vstd::prelude::*;

use crate::access::{AccessNode, Role};
use crate::event::{key_of, EventResponse, Key, PointerButton, SemanticAction};
use crate::text::{opt_text, owned};

verus! {

/// Row height with a subtitle, in points.
pub const ROW_PT: u64 = 52;

/// Row height without a subtitle, in points.
pub const ROW_COMPACT_PT: u64 = 40;

/// Group header strip (text and gap below it), in points.
pub const HEADER_STRIP_PT: u64 = 18;

/// The part of a row a pointer position falls in.
#[derive(Clone, Copy, Debug, PartialEq, Eq, Structural)]
pub enum RowZone {
    /// Outside the row.
    Outside,
    /// On the row, off the trailing control.
    Body,
    /// On the trailing control.
    Trailing,
}

/// The state of a row.
pub struct SettingsRowView {
    pub icon: Option<Seq<char>>,
    pub title: Seq<char>,
    pub subtitle: Option<Seq<char>>,
    pub trailing: bool,
    pub activatable: bool,
    pub activated: bool,
    pub highlighted: bool,
    pub enabled: bool,
}

/// A preferences row.
#[derive(Debug)]
pub struct SettingsRow {
    icon: Option<String>,
    title: String,
    subtitle: Option<String>,
    /// Whether a trailing control occupies the row's right end.
    trailing: bool,
    activatable: bool,
    activated: bool,
    highlighted: bool,
    enabled: bool,
}

impl View for SettingsRow {
    type V = SettingsRowView;

    closed spec fn view(&self) -> SettingsRowView {
        SettingsRowView {
            icon: opt_text(self.icon),
            title: self.title@,
            subtitle: opt_text(self.subtitle),
            trailing: self.trailing,
            activatable: self.activatable,
            activated: self.activated,
            highlighted: self.highlighted,
            enabled: self.enabled,
        }
    }
}

/// The height of a row, in points.
pub open spec fn row_height(r: SettingsRowView) -> nat {
    if r.subtitle is Some {
        ROW_PT as nat
    } else {
        ROW_COMPACT_PT as nat
    }
}

impl SettingsRow {
    /// A passive, enabled row titled `title`.
    pub fn new(title: &str) -> (r: SettingsRow)
        ensures
            r@ == (SettingsRowView {
                icon: None,
                title: title@,
                subtitle: None,
                trailing: false,
                activatable: false,
                activated: false,
                highlighted: false,
                enabled: true,
            }),
    {
        SettingsRow {
            icon: None,
            title: owned(title),
            subtitle: None,
            trailing: false,
            activatable: false,
            activated: false,
            highlighted: false,
            enabled: true,
        }
    }

    /// Sets the leading icon glyph.
    pub fn icon(self, glyph: &str) -> (r: SettingsRow)
        ensures
            r@ == (SettingsRowView { icon: Some(glyph@), ..self@ }),
    {
        let mut r = self;
        r.icon = Some(owned(glyph));
        r
    }

    /// Sets the subtitle.
    pub fn subtitle(self, text: &str) -> (r: SettingsRow)
        ensures
            r@ == (SettingsRowView { subtitle: Some(text@), ..self@ }),
    {
        let mut r = self;
        r.subtitle = Some(owned(text));
        r
    }

    /// Gives the row a trailing control zone.
    pub fn trailing(self) -> (r: SettingsRow)
        ensures
            r@ == (SettingsRowView { trailing: true, ..self@ }),
    {
        let mut r = self;
        r.trailing = true;
        r
    }

    /// Whether a body press activates the row.
    pub fn activatable(self, activatable: bool) -> (r: SettingsRow)
        ensures
            r@ == (SettingsRowView { activatable, ..self@ }),
    {
        let mut r = self;
        r.activatable = activatable;
        r
    }

    /// Enables or disables the row.
    pub fn enabled(self, enabled: bool) -> (r: SettingsRow)
        ensures
            r@ == (SettingsRowView { enabled, ..self@ }),
    {
        let mut r = self;
        r.enabled = enabled;
        r
    }

    /// The title.
    pub fn title(&self) -> (r: &str)
        ensures
            r@ == self@.title,
    {
        self.title.as_str()
    }

    /// Whether the row is highlighted under the pointer.
    pub fn is_highlighted(&self) -> (r: bool)
        ensures
            r == self@.highlighted,
    {
        self.highlighted
    }

    /// Drains a parked activation.
    pub fn take_activated(&mut self) -> (r: bool)
        ensures
            r == old(self)@.activated,
            final(self)@ == (SettingsRowView { activated: false, ..old(self)@ }),
    {
        let r = self.activated;
        self.activated = false;
        r
    }

    /// Number of child widgets: the trailing control, if any.
    pub fn child_count(&self) -> (r: usize)
        ensures
            r == if self@.trailing {
                1usize
            } else {
                0usize
            },
    {
        if self.trailing {
            1
        } else {
            0
        }
    }

    /// The row's height in points: taller with a subtitle.
    pub fn height_pt(&self) -> (r: u64)
        ensures
            r == row_height(self@),
    {
        if self.subtitle.is_some() {
            ROW_PT
        } else {
            ROW_COMPACT_PT
        }
    }

    /// The pointer moved into `zone`: the row highlights while the
    /// pointer is on its body, repainting on a change.
    pub fn pointer_moved(&mut self, zone: RowZone) -> (r: EventResponse)
        ensures
            !old(self)@.enabled ==> r == EventResponse::Ignored && final(self)@ == old(self)@,
            old(self)@.enabled && (zone == RowZone::Body) != old(self)@.highlighted ==> r
                == EventResponse::RequestRepaint && final(self)@ == (SettingsRowView {
                highlighted: zone == RowZone::Body,
                ..old(self)@
            }),
            old(self)@.enabled && (zone == RowZone::Body) == old(self)@.highlighted ==> r
                == EventResponse::Ignored && final(self)@ == old(self)@,
    {
        if !self.enabled {
            return EventResponse::Ignored;
        }
        let hot = zone == RowZone::Body;
        if hot != self.highlighted {
            self.highlighted = hot;
            EventResponse::RequestRepaint
        } else {
            EventResponse::Ignored
        }
    }

    /// The pointer left: the highlight clears.
    pub fn pointer_leave(&mut self) -> (r: EventResponse)
        ensures
            r == EventResponse::Ignored,
            !old(self)@.enabled ==> final(self)@ == old(self)@,
            old(self)@.enabled ==> final(self)@ == (SettingsRowView {
                highlighted: false,
                ..old(self)@
            }),
    {
        if self.enabled {
            self.highlighted = false;
        }
        EventResponse::Ignored
    }

    /// A pointer press in `zone`: a primary press on the body of an
    /// enabled, activatable row activates it.
    pub fn pointer_pressed(&mut self, button: PointerButton, zone: RowZone) -> (r: EventResponse)
        ensures
            old(self)@.enabled && old(self)@.activatable && button == PointerButton::Primary
                && zone == RowZone::Body ==> r == EventResponse::Handled && final(self)@ == (
            SettingsRowView { activated: true, ..old(self)@ }),
            !(old(self)@.enabled && old(self)@.activatable && button == PointerButton::Primary
                && zone == RowZone::Body) ==> r == EventResponse::Ignored && final(self)@ == old(
                self,
            )@,
    {
        if !self.enabled || button != PointerButton::Primary {
            return EventResponse::Ignored;
        }
        if zone == RowZone::Trailing {
            return EventResponse::Ignored;
        }
        if self.activatable && zone == RowZone::Body {
            self.activated = true;
            return EventResponse::Handled;
        }
        EventResponse::Ignored
    }

    /// A key press: `Enter`, `Space` or `" "` activate an enabled,
    /// activatable row.
    pub fn key_pressed(&mut self, key: &str) -> (r: EventResponse)
        ensures
            ({
                let k = key_of(key@);
                let hit = old(self)@.enabled && old(self)@.activatable && (k == Key::Enter || k
                    == Key::Space || k == Key::Blank);
                &&& hit ==> r == EventResponse::Handled && final(self)@ == (SettingsRowView {
                    activated: true,
                    ..old(self)@
                })
                &&& !hit ==> r == EventResponse::Ignored && final(self)@ == old(self)@
            }),
    {
        if !self.enabled {
            return EventResponse::Ignored;
        }
        match Key::from_name(key) {
            Key::Enter | Key::Space | Key::Blank => {
                if self.activatable {
                    self.activated = true;
                    EventResponse::Handled
                } else {
                    EventResponse::Ignored
                }
            },
            _ => EventResponse::Ignored,
        }
    }

    /// An accessibility action: a click activates an enabled,
    /// activatable row.
    pub fn semantic_action(&mut self, action: SemanticAction) -> (r: EventResponse)
        ensures
            old(self)@.enabled && old(self)@.activatable && action == SemanticAction::Click ==> r
                == EventResponse::Handled && final(self)@ == (SettingsRowView {
                activated: true,
                ..old(self)@
            }),
            !(old(self)@.enabled && old(self)@.activatable && action == SemanticAction::Click)
                ==> r == EventResponse::Ignored && final(self)@ == old(self)@,
    {
        if self.enabled && self.activatable && action == SemanticAction::Click {
            self.activated = true;
            EventResponse::Handled
        } else {
            EventResponse::Ignored
        }
    }

    /// The accessibility node: a list item labelled by the title and
    /// described by the subtitle, disabled when disabled, offering the
    /// click action when enabled and activatable.
    pub fn accessibility(&self) -> (n: AccessNode)
        ensures
            n == (AccessNode {
                label: n.label,
                description: n.description,
                disabled: !self@.enabled,
                click_action: self@.enabled && self@.activatable,
                ..AccessNode::blank(Role::ListItem)
            }),
            n.label is Some && n.label.unwrap()@ == self@.title,
            opt_text(n.description) == self@.subtitle,
    {
        let mut node = AccessNode::new(Role::ListItem);
        node.label = Some(self.title.clone());
        node.description = match &self.subtitle {
            Some(s) => Some(s.clone()),
            None => None,
        };
        node.disabled = !self.enabled;
        node.click_action = self.enabled && self.activatable;
        node
    }
}

/// The state of a group.
pub struct SettingsGroupView {
    pub header: Seq<char>,
    pub rows: Seq<SettingsRowView>,
    pub carded: bool,
}

/// A titled group of settings rows.
#[derive(Debug)]
pub struct SettingsGroup {
    header: String,
    rows: Vec<SettingsRow>,
    carded: bool,
}

impl View for SettingsGroup {
    type V = SettingsGroupView;

    closed spec fn view(&self) -> SettingsGroupView {
        SettingsGroupView {
            header: self.header@,
            rows: self.rows@.map_values(|r: SettingsRow| r@),
            carded: self.carded,
        }
    }
}

/// Total height of `rows`, in points.
pub open spec fn rows_height(rows: Seq<SettingsRowView>) -> nat
    decreases rows.len(),
{
    if rows.len() == 0 {
        0
    } else {
        rows_height(rows.drop_last()) + row_height(rows.last())
    }
}

/// The height a group asks for, in points: the header strip when
/// there is a header, then every row.
pub open spec fn group_height(g: SettingsGroupView) -> nat {
    (if g.header.len() == 0 {
        0
    } else {
        HEADER_STRIP_PT as nat
    }) + rows_height(g.rows)
}

impl SettingsGroup {
    /// An empty, carded group under `header`.
    pub fn new(header: &str) -> (g: SettingsGroup)
        ensures
            g@ == (SettingsGroupView { header: header@, rows: Seq::empty(), carded: true }),
    {
        let g = SettingsGroup { header: owned(header), rows: Vec::new(), carded: true };
        assert(g@.rows =~= Seq::empty());
        g
    }

    /// Appends a row.
    pub fn row(self, row: SettingsRow) -> (g: SettingsGroup)
        ensures
            g@ == (SettingsGroupView { rows: self@.rows.push(row@), ..self@ }),
    {
        let ghost rv = row@;
        let mut g = self;
        g.rows.push(row);
        assert(g@.rows =~= self@.rows.push(rv));
        g
    }

    /// Whether rows sit in a rounded card.
    pub fn carded(self, carded: bool) -> (g: SettingsGroup)
        ensures
            g@ == (SettingsGroupView { carded, ..self@ }),
    {
        let mut g = self;
        g.carded = carded;
        g
    }

    /// Number of rows.
    pub fn row_count(&self) -> (r: usize)
        ensures
            r == self@.rows.len(),
    {
        self.rows.len()
    }

    /// The row at `index`, if any.
    pub fn row_at(&self, index: usize) -> (r: Option<&SettingsRow>)
        ensures
            index < self@.rows.len() ==> r is Some && r.unwrap()@ == self@.rows[index as int],
            index >= self@.rows.len() ==> r is None,
    {
        if index < self.rows.len() {
            Some(&self.rows[index])
        } else {
            None
        }
    }

    /// The row at `index`, to change in place, if any.
    pub fn row_at_mut(&mut self, index: usize) -> (r: Option<&mut SettingsRow>)
        ensures
            index >= old(self)@.rows.len() ==> r is None && final(self)@ == old(self)@,
            index < old(self)@.rows.len() ==> r is Some,
            index < old(self)@.rows.len() ==> (*r.unwrap())@ == old(self)@.rows[index as int],
            index < old(self)@.rows.len() ==> final(self)@.header == old(self)@.header,
            index < old(self)@.rows.len() ==> final(self)@.carded == old(self)@.carded,
            index < old(self)@.rows.len() ==> final(self)@.rows =~= old(self)@.rows.update(index as int, (*final(r.unwrap()))@),
    {
        if index < self.rows.len() {
            Some(&mut self.rows[index])
        } else {
            None
        }
    }

    /// Number of child widgets: one per row.
    pub fn child_count(&self) -> (r: usize)
        ensures
            r == self@.rows.len(),
    {
        self.rows.len()
    }

    /// The height the group asks for, in points.
    pub fn height_pt(&self) -> (r: u64)
        requires
            self@.rows.len() * ROW_PT + HEADER_STRIP_PT <= u64::MAX,
        ensures
            r == group_height(self@),
    {
        let mut sum: u64 = if self.header.as_str().unicode_len() == 0 {
            0
        } else {
            HEADER_STRIP_PT
        };
        let ghost head: nat = sum as nat;
        let mut k: usize = 0;
        while k < self.rows.len()
            invariant
                k <= self.rows@.len(),
                self@.rows.len() == self.rows@.len(),
                self@.rows.len() * ROW_PT + HEADER_STRIP_PT <= u64::MAX,
                head <= HEADER_STRIP_PT,
                sum == head + rows_height(self@.rows.take(k as int)),
                rows_height(self@.rows.take(k as int)) <= k * ROW_PT,
            decreases self.rows@.len() - k,
        {
            proof {
                assert(self@.rows.take(k + 1).drop_last() =~= self@.rows.take(k as int));
                assert(self@.rows[k as int] == self.rows@[k as int]@);
                assert(k * ROW_PT + ROW_PT == (k + 1) * ROW_PT) by (nonlinear_arith);
                assert((k + 1) * ROW_PT <= self@.rows.len() * ROW_PT) by (nonlinear_arith)
                    requires
                        k + 1 <= self@.rows.len(),
                ;
            }
            sum = sum + self.rows[k].height_pt();
            k = k + 1;
        }
        assert(self@.rows.take(k as int) =~= self@.rows);
        
        sum
    }

    /// The accessibility node: a group labelled by a non-empty header.
    pub fn accessibility(&self) -> (n: AccessNode)
        ensures
            n == (AccessNode { label: n.label, ..AccessNode::blank(Role::Group) }),
            self@.header.len() == 0 ==> n.label is None,
            self@.header.len() > 0 ==> n.label is Some && n.label.unwrap()@ == self@.header,
    {
        let mut node = AccessNode::new(Role::Group);
        if self.header.as_str().unicode_len() > 0 {
            node.label = Some(self.header.clone());
        }
        node
    }
}

} // verus!
