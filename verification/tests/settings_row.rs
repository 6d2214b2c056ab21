use martensite::access::Role;
use martensite::event::{EventResponse, PointerButton, SemanticAction};
use martensite::widgets::settings_row::{RowZone, SettingsGroup, SettingsRow};

#[test]
fn row_builder() {
    let r = SettingsRow::new("Wi-Fi").icon("📶").subtitle("On");
    assert_eq!(r.title(), "Wi-Fi");
    assert_eq!(r.child_count(), 0);
}

#[test]
fn activatable_row_signals() {
    let mut r = SettingsRow::new("About").activatable(true);
    assert_eq!(
        r.pointer_pressed(PointerButton::Primary, RowZone::Body),
        EventResponse::Handled
    );
    assert!(r.take_activated());
    assert!(!r.take_activated());
}

#[test]
fn passive_row_ignores() {
    let mut r = SettingsRow::new("Info");
    assert_eq!(
        r.pointer_pressed(PointerButton::Primary, RowZone::Body),
        EventResponse::Ignored
    );
}

#[test]
fn trailing_zone_belongs_to_child() {
    let mut r = SettingsRow::new("Dark").activatable(true).trailing();
    assert_eq!(
        r.pointer_pressed(PointerButton::Primary, RowZone::Trailing),
        EventResponse::Ignored
    );
    assert!(!r.take_activated());
    assert_eq!(r.child_count(), 1);
}

#[test]
fn group_lays_rows() {
    let g = SettingsGroup::new("General")
        .row(SettingsRow::new("A").subtitle("sub"))
        .row(SettingsRow::new("B"));
    assert_eq!(g.child_count(), 2);
    let r0 = g.row_at(0).unwrap().height_pt();
    let r1 = g.row_at(1).unwrap().height_pt();
    assert_eq!((r0, r1), (52, 40));
    assert_eq!(g.height_pt(), 18 + 52 + 40);
}

#[test]
fn group_row_access() {
    let mut g = SettingsGroup::new("G")
        .row(SettingsRow::new("A"))
        .row(SettingsRow::new("B").activatable(true));
    g.row_at_mut(1).unwrap().key_pressed("Enter");
    assert!(g.row_at_mut(1).unwrap().take_activated());
    assert!(g.row_at_mut(2).is_none());
}

#[test]
fn keyboard_activation() {
    let mut r = SettingsRow::new("About").activatable(true);
    assert_eq!(r.key_pressed("Enter"), EventResponse::Handled);
    assert!(r.take_activated());
}

#[test]
fn settings_row_space_keys_and_click_action() {
    let mut r = SettingsRow::new("About").activatable(true);
    assert_eq!(r.key_pressed("Space"), EventResponse::Handled);
    assert!(r.take_activated());
    assert_eq!(r.key_pressed(" "), EventResponse::Handled);
    assert!(r.take_activated());
    assert_eq!(r.key_pressed("a"), EventResponse::Ignored);
    assert_eq!(
        r.semantic_action(SemanticAction::Click),
        EventResponse::Handled
    );
    assert!(r.take_activated());
    assert_eq!(
        r.semantic_action(SemanticAction::Focus),
        EventResponse::Ignored
    );
    let mut passive = SettingsRow::new("Info");
    assert_eq!(passive.key_pressed("Enter"), EventResponse::Ignored);
    assert!(!passive.take_activated());
}

#[test]
fn settings_row_disabled_ignores_everything() {
    let mut r = SettingsRow::new("Row").activatable(true).enabled(false);
    assert_eq!(
        r.pointer_pressed(PointerButton::Primary, RowZone::Body),
        EventResponse::Ignored
    );
    assert_eq!(r.key_pressed("Enter"), EventResponse::Ignored);
    assert_eq!(r.pointer_moved(RowZone::Body), EventResponse::Ignored);
    assert!(!r.is_highlighted());
    assert!(!r.take_activated());
}

#[test]
fn settings_row_highlight_tracks_body() {
    let mut r = SettingsRow::new("Row").trailing();
    assert_eq!(r.pointer_moved(RowZone::Body), EventResponse::RequestRepaint);
    assert!(r.is_highlighted());
    assert_eq!(r.pointer_moved(RowZone::Body), EventResponse::Ignored);
    assert_eq!(
        r.pointer_moved(RowZone::Trailing),
        EventResponse::RequestRepaint
    );
    assert!(!r.is_highlighted());
    r.pointer_moved(RowZone::Body);
    assert_eq!(r.pointer_leave(), EventResponse::Ignored);
    assert!(!r.is_highlighted());
    assert_eq!(
        r.pointer_pressed(PointerButton::Secondary, RowZone::Body),
        EventResponse::Ignored
    );
}

#[test]
fn settings_row_accessibility() {
    let r = SettingsRow::new("Wi-Fi").subtitle("HomeNet-5G").activatable(true);
    let n = r.accessibility();
    assert_eq!(n.role, Role::ListItem);
    assert_eq!(n.label.as_deref(), Some("Wi-Fi"));
    assert_eq!(n.description.as_deref(), Some("HomeNet-5G"));
    assert!(n.click_action);
    assert!(!n.disabled);
    let n = SettingsRow::new("Row").activatable(true).enabled(false).accessibility();
    assert!(n.disabled);
    assert!(!n.click_action);
    assert_eq!(n.description, None);
}

#[test]
fn settings_group_header_and_height() {
    let g = SettingsGroup::new("").carded(false);
    assert_eq!(g.height_pt(), 0);
    assert_eq!(g.accessibility().label, None);
    assert_eq!(g.row_count(), 0);
    assert!(g.row_at(0).is_none());
    let g = SettingsGroup::new("Privacy").row(SettingsRow::new("A"));
    assert_eq!(g.accessibility().label.as_deref(), Some("Privacy"));
    assert_eq!(g.accessibility().role, Role::Group);
    assert_eq!(g.height_pt(), 18 + 40);
}
