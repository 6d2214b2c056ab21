//! `StatusBar`: a bottom-of-window status strip. Its message zone shows
//! the permanent message, or a temporary one that displaces it until
//! cleared. Items sit beside it: zones on the left and permanent items
//! docked at the right. Child indices count the zones first, then the
//! permanent items, each in the order added. When a button item fires,
//! [`StatusBar::poll_signals`] records its child index for
//! [`StatusBar::take_activated`].

use vstd::prelude::*;

use crate::access::{AccessNode, Role};
use crate::event::{EventResponse, SemanticAction};
use crate::text::{opt_text, owned};

verus! {

/// The state of a status bar.
pub struct StatusBarView {
    pub label: Option<Seq<char>>,
    pub enabled: bool,
    pub message: Seq<char>,
    pub temporary: Option<Seq<char>>,
    /// The items in child order: zones, then permanent items.
    pub items: Seq<StatusItem>,
    /// How many of the items are zones.
    pub zone_count: nat,
    pub activated: Option<usize>,
}

/// An item of a status bar: a button, whose activations the bar
/// reports, or any other widget.
#[derive(Clone, Copy, Debug, PartialEq, Eq, Structural)]
pub struct StatusItem {
    /// Whether the item is a button.
    pub is_button: bool,
    /// A button activation waits to be polled.
    pub fired: bool,
}

impl StatusItem {
    /// A button item.
    pub fn button() -> (i: StatusItem)
        ensures
            i == (StatusItem { is_button: true, fired: false }),
    {
        StatusItem { is_button: true, fired: false }
    }

    /// Any other widget.
    pub fn widget() -> (i: StatusItem)
        ensures
            i == (StatusItem { is_button: false, fired: false }),
    {
        StatusItem { is_button: false, fired: false }
    }
}

/// The child index of the last item with a waiting activation.
pub open spec fn last_fired(items: Seq<StatusItem>) -> Option<usize>
    decreases items.len(),
{
    if items.len() == 0 {
        None
    } else if items.last().fired {
        Some((items.len() - 1) as usize)
    } else {
        last_fired(items.drop_last())
    }
}

impl StatusBarView {
    /// The zones come first among the items.
    pub open spec fn wf(self) -> bool {
        self.zone_count <= self.items.len()
    }

    /// The text the message zone shows: the temporary message while one
    /// is posted, else the permanent one.
    pub open spec fn current(self) -> Seq<char> {
        match self.temporary {
            Some(t) => t,
            None => self.message,
        }
    }
}

/// A status strip.
#[derive(Debug)]
pub struct StatusBar {
    /// Accessible label; overrides the message as the node label.
    pub label: Option<String>,
    /// Whether the bar accepts input.
    pub enabled: bool,
    message: String,
    temporary: Option<String>,
    items: Vec<StatusItem>,
    zone_count: usize,
    activated: Option<usize>,
}

impl View for StatusBar {
    type V = StatusBarView;

    closed spec fn view(&self) -> StatusBarView {
        StatusBarView {
            label: opt_text(self.label),
            enabled: self.enabled,
            message: self.message@,
            temporary: opt_text(self.temporary),
            items: self.items@,
            zone_count: self.zone_count as nat,
            activated: self.activated,
        }
    }
}

impl StatusBar {
    /// An empty, enabled status bar.
    pub fn new() -> (b: StatusBar)
        ensures
            b@ == (StatusBarView {
                label: None,
                enabled: true,
                message: Seq::empty(),
                temporary: None,
                items: Seq::empty(),
                zone_count: 0,
                activated: None,
            }),
            b@.wf(),
    {
        StatusBar {
            label: None,
            enabled: true,
            message: String::new(),
            temporary: None,
            items: Vec::new(),
            zone_count: 0,
            activated: None,
        }
    }

    /// Adds a zone after the existing zones, before the permanent items.
    pub fn add_zone(self, item: StatusItem) -> (b: StatusBar)
        requires
            self@.wf(),
            self@.items.len() < usize::MAX,
        ensures
            b@ == (StatusBarView {
                items: self@.items.insert(self@.zone_count as int, item),
                zone_count: self@.zone_count + 1,
                ..self@
            }),
            b@.wf(),
    {
        let mut b = self;
        b.items.insert(b.zone_count, item);
        b.zone_count = b.zone_count + 1;
        b
    }

    /// Docks a permanent item after the existing ones.
    pub fn add_permanent(self, item: StatusItem) -> (b: StatusBar)
        requires
            self@.wf(),
        ensures
            b@ == (StatusBarView { items: self@.items.push(item), ..self@ }),
            b@.wf(),
    {
        let mut b = self;
        b.items.push(item);
        b
    }

    /// Number of child widgets: zones and permanent items.
    pub fn child_count(&self) -> (r: usize)
        ensures
            r == self@.items.len(),
    {
        self.items.len()
    }

    /// The item at child index `index`, if any.
    pub fn item(&self, index: usize) -> (r: Option<StatusItem>)
        ensures
            index < self@.items.len() ==> r == Some(self@.items[index as int]),
            index >= self@.items.len() ==> r is None,
    {
        if index < self.items.len() {
            Some(self.items[index])
        } else {
            None
        }
    }

    /// The button at child index `index` fired; other items ignore it.
    /// Answers whether an activation was parked.
    pub fn button_fired(&mut self, index: usize) -> (r: bool)
        requires
            old(self)@.wf(),
        ensures
            r == (index < old(self)@.items.len() && old(self)@.items[index as int].is_button),
            r ==> final(self)@ == (StatusBarView {
                items: old(self)@.items.update(
                    index as int,
                    StatusItem { fired: true, ..old(self)@.items[index as int] },
                ),
                ..old(self)@
            }),
            !r ==> final(self)@ == old(self)@,
            final(self)@.wf(),
    {
        if index < self.items.len() && self.items[index].is_button {
            let it = self.items[index];
            self.items.set(index, StatusItem { fired: true, ..it });
            true
        } else {
            false
        }
    }

    /// Drains the waiting button activations: the last item (in child
    /// order) that fired becomes the reported activation.
    pub fn poll_signals(&mut self)
        requires
            old(self)@.wf(),
        ensures
            final(self)@ == (StatusBarView {
                items: old(self)@.items.map_values(|i: StatusItem| StatusItem { fired: false, ..i }),
                activated: match last_fired(old(self)@.items) {
                    Some(i) => Some(i),
                    None => old(self)@.activated,
                },
                ..old(self)@
            }),
            final(self)@.wf(),
    {
        let ghost items0 = self@.items;
        let mut k: usize = 0;
        while k < self.items.len()
            invariant
                k <= self.items@.len(),
                self.items@.len() == items0.len(),
                self.zone_count <= items0.len(),
                self.label == old(self).label,
                self.enabled == old(self).enabled,
                self.message@ == old(self)@.message,
                opt_text(self.temporary) == old(self)@.temporary,
                self.zone_count == old(self).zone_count,
                items0 == old(self)@.items,
                forall|j: int| 0 <= j < k ==> (#[trigger] self.items@[j]) == (StatusItem {
                    fired: false,
                    ..items0[j]
                }),
                forall|j: int| k <= j < items0.len() ==> (#[trigger] self.items@[j]) == items0[j],
                self.activated == match last_fired(items0.take(k as int)) {
                    Some(i) => Some(i),
                    None => old(self)@.activated,
                },
            decreases items0.len() - k,
        {
            let it = self.items[k];
            proof {
                assert(items0.take(k + 1).drop_last() =~= items0.take(k as int));
            }
            if it.fired {
                self.activated = Some(k);
            }
            self.items.set(k, StatusItem { fired: false, ..it });
            k = k + 1;
        }
        proof {
            assert(items0.take(k as int) =~= items0);
            assert(self@.items =~= items0.map_values(|i: StatusItem| StatusItem { fired: false, ..i }));
        }
    }

    /// Drains the reported activation: the child index of the button
    /// that fired.
    pub fn take_activated(&mut self) -> (r: Option<usize>)
        ensures
            r == old(self)@.activated,
            final(self)@ == (StatusBarView { activated: None, ..old(self)@ }),
    {
        let r = self.activated;
        self.activated = None;
        r
    }

    /// Builder form of [`StatusBar::set_message`].
    pub fn message(self, text: &str) -> (b: StatusBar)
        ensures
            b@ == (StatusBarView { message: text@, ..self@ }),
    {
        let mut b = self;
        b.set_message(text);
        b
    }

    /// Sets the permanent message.
    pub fn set_message(&mut self, text: &str)
        ensures
            final(self)@ == (StatusBarView { message: text@, ..old(self)@ }),
    {
        self.message = owned(text);
    }

    /// Posts a temporary message that displaces the permanent one until
    /// cleared.
    pub fn temporary(&mut self, text: &str)
        ensures
            final(self)@ == (StatusBarView { temporary: Some(text@), ..old(self)@ }),
    {
        self.temporary = Some(owned(text));
    }

    /// Clears the temporary message, restoring the permanent one.
    pub fn clear_temporary(&mut self)
        ensures
            final(self)@ == (StatusBarView { temporary: None, ..old(self)@ }),
    {
        self.temporary = None;
    }

    /// Whether a temporary message is posted.
    pub fn has_temporary(&self) -> (r: bool)
        ensures
            r == self@.temporary is Some,
    {
        self.temporary.is_some()
    }

    /// The text the message zone shows.
    pub fn current_message(&self) -> (r: &str)
        ensures
            r@ == self@.current(),
    {
        match &self.temporary {
            Some(t) => t.as_str(),
            None => self.message.as_str(),
        }
    }

    /// Sets the accessible label.
    pub fn label(self, label: &str) -> (b: StatusBar)
        ensures
            b@ == (StatusBarView { label: Some(label@), ..self@ }),
    {
        let mut b = self;
        b.label = Some(owned(label));
        b
    }

    /// Sets whether the bar accepts input.
    pub fn enabled(self, enabled: bool) -> (b: StatusBar)
        ensures
            b@ == (StatusBarView { enabled, ..self@ }),
    {
        let mut b = self;
        b.enabled = enabled;
        b
    }

    /// An accessibility action: `Focus` and `Click` ask for focus on an
    /// enabled bar.
    pub fn semantic_action(&mut self, action: SemanticAction) -> (r: EventResponse)
        ensures
            final(self)@ == old(self)@,
            r == (if old(self)@.enabled && (action == SemanticAction::Focus || action
                == SemanticAction::Click) {
                EventResponse::CaptureFocus
            } else {
                EventResponse::Ignored
            }),
    {
        if !self.enabled {
            return EventResponse::Ignored;
        }
        match action {
            SemanticAction::Focus | SemanticAction::Click => EventResponse::CaptureFocus,
            _ => EventResponse::Ignored,
        }
    }

    /// The accessibility node: a status labelled by the label, else the
    /// shown message, else "Status bar"; it offers focus.
    pub fn accessibility(&self) -> (n: AccessNode)
        ensures
            n == (AccessNode {
                label: n.label,
                focus_action: true,
                disabled: !self@.enabled,
                ..AccessNode::blank(Role::Status)
            }),
            n.label is Some,
            n.label.unwrap()@ == match self@.label {
                Some(l) => l,
                None => if self@.current().len() == 0 {
                    "Status bar"@
                } else {
                    self@.current()
                },
            },
    {
        let text = match &self.label {
            Some(l) => l.clone(),
            None => {
                let msg = self.current_message();
                if msg.is_empty() {
                    owned("Status bar")
                } else {
                    owned(msg)
                }
            },
        };
        let mut node = AccessNode::new(Role::Status);
        node.label = Some(text);
        node.focus_action = true;
        node.disabled = !self.enabled;
        node
    }
}

/// A temporary message displaces the permanent one, and clearing it
/// restores the permanent one, whatever the permanent message is.
pub proof fn lemma_temporary_round_trip(v: StatusBarView, t: Seq<char>)
    ensures
        (StatusBarView { temporary: Some(t), ..v }).current() == t,
        (StatusBarView { temporary: None, ..(StatusBarView { temporary: Some(t), ..v }) }).current()
            == v.message,
{
}

} // verus!
