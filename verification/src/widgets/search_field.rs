//! `SearchField` and `SearchBar`: a search input with an `Enter` submit
//! seam, and a revealable strip hosting one.
//!
//! The text editing itself (caret, selection, typing) belongs to the
//! host's text field, which reports edits through
//! [`SearchField::field_edited`]. `Enter` submits the current text for
//! [`SearchField::take_submitted`]; other keys go to the text field. A
//! revealed, enabled [`SearchBar`] turns `Escape` into a close request
//! and hands every other key to its field; a collapsed or disabled bar
//! ignores input.

use vstd::prelude::*;

use crate::access::{AccessNode, Role};
use crate::event::{key_of, EventResponse, Key, SemanticAction};
use crate::text::{opt_text, owned};

verus! {

/// Where an input to a search field goes.
#[derive(Clone, Copy, Debug, PartialEq, Eq, Structural)]
pub enum FieldRoute {
    /// Answer with this response.
    Answer(EventResponse),
    /// Hand the event to the text field and answer with its response.
    Forward,
}

/// The state of a search field.
pub struct SearchFieldView {
    pub label: Option<Seq<char>>,
    pub enabled: bool,
    pub placeholder: Seq<char>,
    /// The text in the field.
    pub value: Seq<char>,
    pub submitted: Option<Seq<char>>,
    /// The user edited the text since the last drain.
    pub edited: bool,
}

/// A search input.
#[derive(Debug)]
pub struct SearchField {
    /// Accessibility label; "Search" when unset.
    pub label: Option<String>,
    /// Whether input reaches the field.
    pub enabled: bool,
    /// Text shown while the field is empty.
    pub placeholder: String,
    value: String,
    submitted: Option<String>,
    edited: bool,
}

impl View for SearchField {
    type V = SearchFieldView;

    closed spec fn view(&self) -> SearchFieldView {
        SearchFieldView {
            label: opt_text(self.label),
            enabled: self.enabled,
            placeholder: self.placeholder@,
            value: self.value@,
            submitted: opt_text(self.submitted),
            edited: self.edited,
        }
    }
}

/// The name a search field announces: its label, else "Search".
pub open spec fn field_name(v: SearchFieldView) -> Seq<char> {
    match v.label {
        Some(l) => l,
        None => "Search"@,
    }
}

impl SearchField {
    /// An empty, enabled field with placeholder "Search…".
    pub fn new() -> (f: SearchField)
        ensures
            f@ == (SearchFieldView {
                label: None,
                enabled: true,
                placeholder: "Search…"@,
                value: ""@,
                submitted: None,
                edited: false,
            }),
    {
        SearchField {
            label: None,
            enabled: true,
            placeholder: owned("Search…"),
            value: owned(""),
            submitted: None,
            edited: false,
        }
    }

    /// Sets the accessibility label.
    pub fn label(self, label: &str) -> (f: SearchField)
        ensures
            f@ == (SearchFieldView { label: Some(label@), ..self@ }),
    {
        let mut f = self;
        f.label = Some(owned(label));
        f
    }

    /// Sets the placeholder.
    pub fn placeholder(self, placeholder: &str) -> (f: SearchField)
        ensures
            f@ == (SearchFieldView { placeholder: placeholder@, ..self@ }),
    {
        let mut f = self;
        f.placeholder = owned(placeholder);
        f
    }

    /// Builder form of [`SearchField::set_value`].
    pub fn with_value(self, value: &str) -> (f: SearchField)
        ensures
            f@ == (SearchFieldView { value: value@, ..self@ }),
    {
        let mut f = self;
        f.set_value(value);
        f
    }

    /// Replaces the text.
    pub fn set_value(&mut self, value: &str)
        ensures
            final(self)@ == (SearchFieldView { value: value@, ..old(self)@ }),
    {
        self.value = owned(value);
    }

    /// The text.
    pub fn value(&self) -> (r: &str)
        ensures
            r@ == self@.value,
    {
        self.value.as_str()
    }

    /// Enables or disables the field.
    pub fn enabled(self, enabled: bool) -> (f: SearchField)
        ensures
            f@ == (SearchFieldView { enabled, ..self@ }),
    {
        let mut f = self;
        f.enabled = enabled;
        f
    }

    /// The text field edited the text to `text`.
    pub fn field_edited(&mut self, text: &str)
        ensures
            final(self)@ == (SearchFieldView { value: text@, edited: true, ..old(self)@ }),
    {
        self.value = owned(text);
        self.edited = true;
    }

    /// Drains the text submitted with `Enter`.
    pub fn take_submitted(&mut self) -> (r: Option<String>)
        ensures
            opt_text(r) == old(self)@.submitted,
            final(self)@ == (SearchFieldView { submitted: None, ..old(self)@ }),
    {
        let mut r: Option<String> = None;
        std::mem::swap(&mut r, &mut self.submitted);
        r
    }

    /// Drains the edited flag.
    pub fn take_edited(&mut self) -> (r: bool)
        ensures
            r == old(self)@.edited,
            final(self)@ == (SearchFieldView { edited: false, ..old(self)@ }),
    {
        let r = self.edited;
        self.edited = false;
        r
    }

    /// A key press, by key name: `Enter` submits the current text;
    /// other keys go to the text field.
    pub fn key_pressed(&mut self, key: &str) -> (r: FieldRoute)
        ensures
            !old(self)@.enabled ==> r == FieldRoute::Answer(EventResponse::Ignored) && final(self)@ == old(self)@,
            old(self)@.enabled && key_of(key@) == Key::Enter ==> r == FieldRoute::Answer(
                EventResponse::RequestRepaint,
            ) && final(self)@ == (SearchFieldView {
                submitted: Some(old(self)@.value),
                ..old(self)@
            }),
            old(self)@.enabled && key_of(key@) != Key::Enter ==> r == FieldRoute::Forward
                && final(self)@ == old(self)@,
    {
        if !self.enabled {
            return FieldRoute::Answer(EventResponse::Ignored);
        }
        if Key::from_name(key) == Key::Enter {
            self.submitted = Some(self.value.clone());
            FieldRoute::Answer(EventResponse::RequestRepaint)
        } else {
            FieldRoute::Forward
        }
    }

    /// An accessibility action; `text` is what a set-value carries,
    /// which replaces the text. Focus asks for keyboard focus; other
    /// actions go to the text field.
    pub fn semantic_action(&mut self, action: SemanticAction, text: &str) -> (r: FieldRoute)
        ensures
            !old(self)@.enabled ==> r == FieldRoute::Answer(EventResponse::Ignored) && final(self)@ == old(self)@,
            old(self)@.enabled && action == SemanticAction::SetValue ==> r == FieldRoute::Answer(
                EventResponse::RequestRepaint,
            ) && final(self)@ == (SearchFieldView { value: text@, ..old(self)@ }),
            old(self)@.enabled && action == SemanticAction::Focus ==> r == FieldRoute::Answer(
                EventResponse::CaptureFocus,
            ) && final(self)@ == old(self)@,
            old(self)@.enabled && action != SemanticAction::SetValue && action
                != SemanticAction::Focus ==> r == FieldRoute::Forward && final(self)@ == old(self)@,
    {
        if !self.enabled {
            return FieldRoute::Answer(EventResponse::Ignored);
        }
        match action {
            SemanticAction::SetValue => {
                self.set_value(text);
                FieldRoute::Answer(EventResponse::RequestRepaint)
            },
            SemanticAction::Focus => FieldRoute::Answer(EventResponse::CaptureFocus),
            _ => FieldRoute::Forward,
        }
    }

    /// The accessibility node: a search input named by the label (else
    /// "Search") and valued by the text, offering focus and set-value
    /// when enabled, disabled otherwise.
    pub fn accessibility(&self) -> (n: AccessNode)
        ensures
            n == (AccessNode {
                label: n.label,
                value: n.value,
                focus_action: self@.enabled,
                set_value_action: self@.enabled,
                disabled: !self@.enabled,
                ..AccessNode::blank(Role::SearchInput)
            }),
            n.label is Some && n.label.unwrap()@ == field_name(self@),
            n.value is Some && n.value.unwrap()@ == self@.value,
    {
        let mut node = AccessNode::new(Role::SearchInput);
        node.label = match &self.label {
            Some(l) => Some(l.clone()),
            None => Some(owned("Search")),
        };
        node.value = Some(self.value.clone());
        node.focus_action = self.enabled;
        node.set_value_action = self.enabled;
        node.disabled = !self.enabled;
        node
    }
}

impl Default for SearchField {
    fn default() -> (f: SearchField)
        ensures
            f@ == (SearchFieldView {
                label: None,
                enabled: true,
                placeholder: "Search…"@,
                value: ""@,
                submitted: None,
                edited: false,
            }),
    {
        SearchField::new()
    }
}

/// The state of a search bar.
pub struct SearchBarView {
    pub search_mode: bool,
    pub enabled: bool,
    pub field: SearchFieldView,
    pub close_requested: bool,
}

/// A revealable strip hosting a search field.
#[derive(Debug)]
pub struct SearchBar {
    /// Whether the bar is revealed; the host toggles it.
    pub search_mode: bool,
    /// Whether input reaches the bar.
    pub enabled: bool,
    field: SearchField,
    close_requested: bool,
}

impl View for SearchBar {
    type V = SearchBarView;

    closed spec fn view(&self) -> SearchBarView {
        SearchBarView {
            search_mode: self.search_mode,
            enabled: self.enabled,
            field: self.field@,
            close_requested: self.close_requested,
        }
    }
}

impl SearchBar {
    /// A collapsed, enabled bar with a fresh field.
    pub fn new() -> (b: SearchBar)
        ensures
            b@ == (SearchBarView {
                search_mode: false,
                enabled: true,
                field: SearchFieldView {
                    label: None,
                    enabled: true,
                    placeholder: "Search…"@,
                    value: ""@,
                    submitted: None,
                    edited: false,
                },
                close_requested: false,
            }),
    {
        SearchBar {
            search_mode: false,
            enabled: true,
            field: SearchField::new(),
            close_requested: false,
        }
    }

    /// Sets the field's placeholder.
    pub fn placeholder(self, text: &str) -> (b: SearchBar)
        ensures
            b@ == (SearchBarView {
                field: SearchFieldView { placeholder: text@, ..self@.field },
                ..self@
            }),
    {
        let mut b = self;
        b.field.placeholder = owned(text);
        b
    }

    /// Enables or disables the bar and its field.
    pub fn enabled(self, enabled: bool) -> (b: SearchBar)
        ensures
            b@ == (SearchBarView {
                enabled,
                field: SearchFieldView { enabled, ..self@.field },
                ..self@
            }),
    {
        let mut b = self;
        b.enabled = enabled;
        b.field.enabled = enabled;
        b
    }

    /// The hosted field.
    pub fn field(&self) -> (r: &SearchField)
        ensures
            r@ == self@.field,
    {
        &self.field
    }

    /// The hosted field, to change in place.
    pub fn field_mut(&mut self) -> (r: &mut SearchField)
        ensures
            (*r)@ == old(self)@.field,
            final(self)@ == (SearchBarView { field: (*final(r))@, ..old(self)@ }),
    {
        &mut self.field
    }

    /// Drains the field's submitted text.
    pub fn take_submitted(&mut self) -> (r: Option<String>)
        ensures
            opt_text(r) == old(self)@.field.submitted,
            final(self)@ == (SearchBarView {
                field: SearchFieldView { submitted: None, ..old(self)@.field },
                ..old(self)@
            }),
    {
        self.field.take_submitted()
    }

    /// Drains the field's edited flag.
    pub fn take_edited(&mut self) -> (r: bool)
        ensures
            r == old(self)@.field.edited,
            final(self)@ == (SearchBarView {
                field: SearchFieldView { edited: false, ..old(self)@.field },
                ..old(self)@
            }),
    {
        self.field.take_edited()
    }

    /// Drains a close request.
    pub fn take_close_requested(&mut self) -> (r: bool)
        ensures
            r == old(self)@.close_requested,
            final(self)@ == (SearchBarView { close_requested: false, ..old(self)@ }),
    {
        let r = self.close_requested;
        self.close_requested = false;
        r
    }

    /// A key press, by key name. A revealed, enabled bar turns `Escape`
    /// into a close request and hands other keys to its field.
    pub fn key_pressed(&mut self, key: &str) -> (r: FieldRoute)
        ensures
            !(old(self)@.enabled && old(self)@.search_mode) ==> r == FieldRoute::Answer(
                EventResponse::Ignored,
            ) && final(self)@ == old(self)@,
            old(self)@.enabled && old(self)@.search_mode && key_of(key@) == Key::Escape ==> r
                == FieldRoute::Answer(EventResponse::RequestRepaint) && final(self)@ == (
            SearchBarView { close_requested: true, ..old(self)@ }),
            old(self)@.enabled && old(self)@.search_mode && key_of(key@) != Key::Escape ==> ({
                let f = old(self)@.field;
                &&& !f.enabled ==> r == FieldRoute::Answer(EventResponse::Ignored) && final(self)@
                    == old(self)@
                &&& f.enabled && key_of(key@) == Key::Enter ==> r == FieldRoute::Answer(
                    EventResponse::RequestRepaint,
                ) && final(self)@ == (SearchBarView {
                    field: SearchFieldView { submitted: Some(f.value), ..f },
                    ..old(self)@
                })
                &&& f.enabled && key_of(key@) != Key::Enter ==> r == FieldRoute::Forward
                    && final(self)@ == old(self)@
            }),
    {
        if !self.enabled || !self.search_mode {
            return FieldRoute::Answer(EventResponse::Ignored);
        }
        if Key::from_name(key) == Key::Escape {
            self.close_requested = true;
            return FieldRoute::Answer(EventResponse::RequestRepaint);
        }
        self.field.key_pressed(key)
    }

    /// The accessibility node: a group labelled "Search bar", disabled
    /// when disabled.
    pub fn accessibility(&self) -> (n: AccessNode)
        ensures
            n == (AccessNode {
                label: n.label,
                disabled: !self@.enabled,
                ..AccessNode::blank(Role::Group)
            }),
            n.label is Some && n.label.unwrap()@ == "Search bar"@,
    {
        let mut node = AccessNode::new(Role::Group);
        node.label = Some(owned("Search bar"));
        node.disabled = !self.enabled;
        node
    }
}

impl Default for SearchBar {
    fn default() -> (b: SearchBar)
        ensures
            b@ == (SearchBarView {
                search_mode: false,
                enabled: true,
                field: SearchFieldView {
                    label: None,
                    enabled: true,
                    placeholder: "Search…"@,
                    value: ""@,
                    submitted: None,
                    edited: false,
                },
                close_requested: false,
            }),
    {
        SearchBar::new()
    }
}

} // verus!
