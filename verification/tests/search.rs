use martensite::access::Role;
use martensite::event::{EventResponse, SemanticAction};
use martensite::widgets::search_field::{FieldRoute, SearchBar, SearchField};

#[test]
fn new_configures_search_chrome() {
    let field = SearchField::new();
    assert_eq!(field.placeholder, "Search…");
    assert_eq!(field.value(), "");
}

#[test]
fn enter_submits_current_text() {
    let mut field = SearchField::new().with_value("widgets");
    assert_eq!(
        field.key_pressed("Enter"),
        FieldRoute::Answer(EventResponse::RequestRepaint)
    );
    assert_eq!(field.take_submitted(), Some("widgets".to_string()));
    // One-shot seam: drained by the first take.
    assert_eq!(field.take_submitted(), None);
}

#[test]
fn typing_sets_edited_flag() {
    let mut field = SearchField::new();
    assert_eq!(field.key_pressed("r"), FieldRoute::Forward);
    field.field_edited("rus");
    assert_eq!(field.value(), "rus");
    assert!(field.take_edited());
    assert!(!field.take_edited());
}

#[test]
fn clear_button_edit_propagates() {
    let mut field = SearchField::new().with_value("abc");
    assert!(!field.take_edited());
    field.field_edited("");
    assert_eq!(field.value(), "");
    assert!(field.take_edited());
}

#[test]
fn accessibility_emits_search_role() {
    let field = SearchField::new().label("Find").with_value("q");
    let node = field.accessibility();
    assert_eq!(node.role, Role::SearchInput);
    assert_eq!(node.label.as_deref(), Some("Find"));
    assert_eq!(node.value.as_deref(), Some("q"));
    assert!(node.focus_action);
    assert!(node.set_value_action);
    assert_eq!(
        SearchField::new().accessibility().label.as_deref(),
        Some("Search")
    );
}

#[test]
fn search_field_disabled_ignores_events() {
    let mut field = SearchField::new().enabled(false).with_value("x");
    assert_eq!(
        field.key_pressed("Enter"),
        FieldRoute::Answer(EventResponse::Ignored)
    );
    assert_eq!(field.take_submitted(), None);
    assert!(field.accessibility().disabled);
}

#[test]
fn semantic_set_value_writes_text() {
    let mut field = SearchField::new();
    assert_eq!(
        field.semantic_action(SemanticAction::SetValue, "typed"),
        FieldRoute::Answer(EventResponse::RequestRepaint)
    );
    assert_eq!(field.value(), "typed");
    assert_eq!(
        field.semantic_action(SemanticAction::Focus, ""),
        FieldRoute::Answer(EventResponse::CaptureFocus)
    );
    assert_eq!(
        field.semantic_action(SemanticAction::Click, ""),
        FieldRoute::Forward
    );
}

#[test]
fn escape_parks_close_request() {
    let mut bar = SearchBar::new();
    bar.search_mode = true;
    assert_eq!(
        bar.key_pressed("Escape"),
        FieldRoute::Answer(EventResponse::RequestRepaint)
    );
    assert!(bar.take_close_requested());
    assert!(!bar.take_close_requested());
}

#[test]
fn events_forward_to_field() {
    let mut bar = SearchBar::new().placeholder("Find");
    bar.search_mode = true;
    assert_eq!(bar.key_pressed("a"), FieldRoute::Forward);
    bar.field_mut().field_edited("abc");
    assert_eq!(bar.field().value(), "abc");
    assert!(bar.take_edited());
    assert_eq!(
        bar.key_pressed("Enter"),
        FieldRoute::Answer(EventResponse::RequestRepaint)
    );
    assert_eq!(bar.take_submitted(), Some("abc".to_string()));
    assert_eq!(bar.field().placeholder, "Find");
}

#[test]
fn collapsed_ignores_input() {
    let mut bar = SearchBar::new();
    assert_eq!(
        bar.key_pressed("Escape"),
        FieldRoute::Answer(EventResponse::Ignored)
    );
    assert!(!bar.take_close_requested());
    let mut off = SearchBar::new().enabled(false);
    off.search_mode = true;
    assert_eq!(
        off.key_pressed("Enter"),
        FieldRoute::Answer(EventResponse::Ignored)
    );
    assert!(off.accessibility().disabled);
    assert_eq!(
        SearchBar::default().accessibility().label.as_deref(),
        Some("Search bar")
    );
}
