use martensite::access::Role;
use martensite::event::{EventResponse, PointerButton, SemanticAction};
use martensite::widgets::signal_strength::SignalStrength;
use martensite::widgets::skeleton::{Skeleton, SkeletonShape};
use martensite::widgets::speed_dial::{DialTarget, SpeedDial};
use martensite::widgets::status_bar::{StatusBar, StatusItem};

#[test]
fn toggle_opens_and_closes() {
    let mut d = SpeedDial::new().action("a");
    d.toggle();
    assert!(d.is_open());
    d.toggle();
    assert!(!d.is_open());
}

#[test]
fn fab_click_toggles() {
    let mut d = SpeedDial::new().action("a");
    d.pointer_pressed(PointerButton::Primary, DialTarget::Fab);
    assert!(d.is_open());
}

#[test]
fn mini_click_parks_and_closes() {
    let mut d = SpeedDial::new().action("Compose").action("Scan");
    d.open();
    // "Scan" — second up the fan.
    d.pointer_pressed(PointerButton::Primary, DialTarget::Action(1));
    assert_eq!(d.take_action(), Some(1));
    assert!(!d.is_open());
}

#[test]
fn escape_closes() {
    let mut d = SpeedDial::new().action("a");
    d.open();
    d.key_pressed("Escape");
    assert!(!d.is_open());
}

#[test]
fn speed_dial_doc_examples() {
    let mut d = SpeedDial::new();
    d.toggle();
    assert!(d.is_open());
    assert_eq!(SpeedDial::new().action_count(), 0);
    assert_eq!(SpeedDial::new().label("Create").label, "Create");
    assert_eq!(SpeedDial::new().action("Share").action_count(), 1);
    let d = SpeedDial::new().action("Compose");
    assert_eq!(d.action_label(0), Some("Compose"));
    assert_eq!(d.action_label(1), None);
    let mut d = SpeedDial::new();
    d.open();
    d.close();
    assert!(!d.is_open());
    assert_eq!(d.take_action(), None);
}

#[test]
fn speed_dial_background_and_keys() {
    let mut d = SpeedDial::new().action("a");
    assert_eq!(
        d.pointer_pressed(PointerButton::Primary, DialTarget::Background),
        EventResponse::Handled
    );
    assert_eq!(d.key_pressed("Enter"), EventResponse::RequestRepaint);
    assert!(d.is_open());
    assert_eq!(d.key_pressed("Space"), EventResponse::Ignored);
    assert_eq!(
        d.pointer_pressed(PointerButton::Primary, DialTarget::Background),
        EventResponse::RequestRepaint
    );
    assert!(!d.is_open());
    assert_eq!(d.key_pressed("Escape"), EventResponse::Ignored);
    assert_eq!(
        d.pointer_pressed(PointerButton::Primary, DialTarget::Outside),
        EventResponse::Ignored
    );
    assert_eq!(
        d.pointer_pressed(PointerButton::Secondary, DialTarget::Fab),
        EventResponse::Ignored
    );
    assert!(!d.is_open());
    assert_eq!(d.accessibility().label.as_deref(), Some("Actions"));
    d.open();
    let node = d.accessibility();
    assert_eq!(node.role, Role::Button);
    assert_eq!(node.label.as_deref(), Some("Actions — expanded"));
}

#[test]
fn level_clamps() {
    assert_eq!(SignalStrength::new().level(9).level_value(), 4);
    assert_eq!(SignalStrength::new().level(0).level_value(), 0);
}

#[test]
fn set_level() {
    let mut s = SignalStrength::new();
    s.set_level(1);
    assert_eq!(s.level_value(), 1);
    s.set_level(7);
    assert_eq!(s.level_value(), 4);
}

#[test]
fn signal_strength_doc_examples() {
    assert_eq!(SignalStrength::new().level_value(), 4);
    assert_eq!(SignalStrength::new().level(2).level_value(), 2);
    assert_eq!(SignalStrength::new().label("Uplink").label, "Uplink");
    assert!(SignalStrength::new().offline(true).offline);
    let node = SignalStrength::new().level(3).offline(true).accessibility();
    assert_eq!(node.role, Role::Image);
    assert_eq!(node.label.as_deref(), Some("Signal — 3/4"));
    assert_eq!(node.description.as_deref(), Some("offline"));
    assert_eq!(SignalStrength::new().accessibility().description, None);
}

#[test]
fn constructors_and_loading() {
    assert!(Skeleton::block().is_loading());
    assert!(Skeleton::circle().is_loading());
    assert!(Skeleton::lines(3).is_loading());
    let mut s = Skeleton::block();
    s.set_loading(false);
    assert!(!s.is_loading());
}

#[test]
fn lines_clamps_to_one() {
    let s = Skeleton::lines(0);
    assert_eq!(s.shape(), SkeletonShape::Lines(1));
    assert_eq!(Skeleton::lines(4).shape(), SkeletonShape::Lines(4));
}

#[test]
fn shimmer_advances_on_tick() {
    let mut s = Skeleton::block();
    assert!(s.tick(100_000_000));
    let mut still = Skeleton::block().animated(false);
    assert!(!still.tick(100_000_000));
    let mut done = Skeleton::circle();
    done.set_loading(false);
    assert!(!done.tick(100_000_000));
}

#[test]
fn skeleton_accessibility() {
    let s = Skeleton::block();
    let node = s.accessibility();
    assert_eq!(node.role, Role::GenericContainer);
    assert_eq!(node.label.as_deref(), Some("Loading"));
    assert!(node.busy);
    let mut s = Skeleton::lines(2).animated(false);
    s.set_loading(false);
    let node = s.accessibility();
    assert!(!node.busy);
    assert_eq!(node.label, None);
}

fn bar() -> StatusBar {
    StatusBar::new()
        .message("Ready")
        .add_zone(StatusItem::widget())
        .add_permanent(StatusItem::button())
        .add_permanent(StatusItem::button())
}

#[test]
fn builder_collects_zones_and_permanents() {
    let bar = bar();
    assert_eq!(bar.child_count(), 3);
    assert_eq!(bar.current_message(), "Ready");
    assert!(bar.item(0).is_some());
    assert!(bar.item(2).is_some());
    assert!(bar.item(3).is_none());
    // A zone added later still sits before the permanent items.
    let bar = bar.add_zone(StatusItem::button());
    assert_eq!(bar.item(1), Some(StatusItem::button()));
    assert_eq!(bar.item(2), Some(StatusItem::button()));
    assert_eq!(bar.item(0), Some(StatusItem::widget()));
}

#[test]
fn take_activated_reports_child_index() {
    let mut bar = bar();
    // Permanent "B" is child index 2.
    assert!(bar.button_fired(2));
    bar.poll_signals();
    assert_eq!(bar.take_activated(), Some(2));
    assert_eq!(bar.take_activated(), None);
}

#[test]
fn status_bar_poll_reports_last_button_and_ignores_widgets() {
    let mut bar = bar();
    assert!(!bar.button_fired(0));
    assert!(!bar.button_fired(9));
    bar.poll_signals();
    assert_eq!(bar.take_activated(), None);
    bar.button_fired(1);
    bar.button_fired(2);
    bar.poll_signals();
    assert_eq!(bar.take_activated(), Some(2));
    // The marks were drained.
    bar.poll_signals();
    assert_eq!(bar.take_activated(), None);
}

#[test]
fn temporary_displaces_until_cleared() {
    let mut bar = bar();
    assert!(!bar.has_temporary());
    bar.temporary("Saving…");
    assert_eq!(bar.current_message(), "Saving…");
    bar.clear_temporary();
    assert_eq!(bar.current_message(), "Ready");
    // Clearing twice is a no-op.
    bar.clear_temporary();
    assert_eq!(bar.current_message(), "Ready");
}

#[test]
fn accessibility_role_status_and_label() {
    let bar = bar();
    let node = bar.accessibility();
    assert_eq!(node.role, Role::Status);
    assert_eq!(node.label.as_deref(), Some("Ready"));
    // An explicit label wins over the message text.
    let bar = StatusBar::new().message("Ready").label("Workspace status");
    assert_eq!(bar.accessibility().label.as_deref(), Some("Workspace status"));
    assert_eq!(StatusBar::new().accessibility().label.as_deref(), Some("Status bar"));
}

#[test]
fn status_bar_disabled_ignores_events() {
    let mut bar = bar().enabled(false);
    assert_eq!(bar.semantic_action(SemanticAction::Click), EventResponse::Ignored);
    assert!(bar.accessibility().disabled);
    let mut on = StatusBar::new();
    assert_eq!(on.semantic_action(SemanticAction::Focus), EventResponse::CaptureFocus);
    assert_eq!(on.semantic_action(SemanticAction::ScrollUp), EventResponse::Ignored);
}

#[test]
fn status_bar_debug_format() {
    let bar = bar();
    let debug = format!("{:?}", bar);
    assert!(debug.contains("StatusBar"));
    assert!(debug.contains("Ready"));
}

#[test]
fn status_bar_doc_examples() {
    let mut bar = StatusBar::new().message("Ready");
    bar.temporary("Saved");
    assert_eq!(bar.current_message(), "Saved");
    assert!(bar.has_temporary());
    bar.clear_temporary();
    assert_eq!(bar.current_message(), "Ready");
    let mut bar = StatusBar::new();
    assert_eq!(bar.current_message(), "");
    bar.set_message("3 items");
    assert_eq!(bar.current_message(), "3 items");
    assert_eq!(
        StatusBar::new().label("Workspace status").label.as_deref(),
        Some("Workspace status")
    );
    assert!(!StatusBar::new().enabled(false).enabled);
}
