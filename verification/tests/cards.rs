use martensite::access::Role;
use martensite::event::{EventResponse, PointerButton};
use martensite::widgets::social_card::{CardAction, SocialCard};
use martensite::widgets::statistic::{Statistic, Trend};
use martensite::widgets::status_dot::{Status, StatusDot, OFF, OK};

fn fixture() -> SocialCard {
    SocialCard::new("Ana", "@ana", "2h", "Hello, world!")
}

#[test]
fn like_toggles() {
    let mut c = fixture();
    c.pointer_released(PointerButton::Primary, Some(0));
    assert!(c.is_liked());
    assert_eq!(c.take_action(), Some(0));
    c.pointer_released(PointerButton::Primary, Some(0));
    assert!(!c.is_liked());
}

#[test]
fn actions_park_index() {
    let mut c = fixture();
    c.pointer_released(PointerButton::Primary, Some(2));
    assert_eq!(c.take_action(), Some(2));
    assert!(!c.is_liked());
}

#[test]
fn social_card_doc_examples() {
    let a = CardAction::new("♥", 12);
    assert_eq!(a.count, 12);
    let c = SocialCard::new("Ana", "@ana", "2h", "hi");
    assert_eq!(c.action_count(), 3);
    assert_eq!(c.author(), "Ana");
    assert_eq!(c.body(), "hi");
    let c = SocialCard::new("A", "@a", "1h", "x").with_actions(vec![CardAction::new("♥", 5)]);
    assert_eq!(c.action_count(), 1);
    assert_eq!(
        SocialCard::new("A", "@a", "1h", "x").label("Feed item").label,
        "Feed item"
    );
    let mut c = SocialCard::new("A", "@a", "1h", "x").avatar_color([1; 4]);
    c.set_count(0, 42);
    assert_eq!(c.actions[0].count, 42);
    c.set_count(9, 1);
    assert_eq!(c.action_count(), 3);
    c.set_liked(true);
    assert!(c.is_liked());
    assert_eq!(c.take_action(), None);
}

#[test]
fn hover_and_release_misses() {
    let mut c = fixture();
    assert_eq!(c.pointer_moved(Some(1)), EventResponse::RequestRepaint);
    assert_eq!(c.pointer_moved(Some(1)), EventResponse::Ignored);
    assert_eq!(c.pointer_leave(), EventResponse::RequestRepaint);
    assert_eq!(c.pointer_leave(), EventResponse::Ignored);
    assert_eq!(c.pointer_released(PointerButton::Primary, None), EventResponse::Ignored);
    assert_eq!(
        c.pointer_released(PointerButton::Secondary, Some(0)),
        EventResponse::Ignored
    );
    assert!(!c.is_liked());
}

#[test]
fn social_card_accessibility() {
    let node = fixture().accessibility();
    assert_eq!(node.role, Role::Group);
    assert_eq!(node.label.as_deref(), Some("Post by Ana"));
    assert_eq!(node.value.as_deref(), Some("Hello, world!"));
}

#[test]
fn status_roundtrip() {
    let mut d = StatusDot::new("A").status(Status::Warning);
    assert_eq!(d.status_value(), Status::Warning);
    d.set_status(Status::Nominal);
    assert_eq!(d.status_value(), Status::Nominal);
}

#[test]
fn a11y_value_is_status() {
    let d = StatusDot::new("Pump").status(Status::Error);
    let node = d.accessibility();
    assert_eq!(node.role, Role::Status);
    assert_eq!(node.value.as_deref(), Some("error"));
    assert_eq!(node.label.as_deref(), Some("Pump"));
}

#[test]
fn colors_map() {
    assert_eq!(StatusDot::new("x").status(Status::Nominal).base_color(), OK);
    assert_eq!(StatusDot::new("x").status(Status::Off).base_color(), OFF);
}

#[test]
fn status_dot_doc_examples() {
    assert_ne!(Status::Nominal, Status::Error);
    let d = StatusDot::new("Link");
    assert_eq!(d.text(), "Link");
    assert_eq!(StatusDot::new("Pump").status_value(), Status::Off);
    assert!(StatusDot::new("L").pulse(true).pulse);
    assert!(!StatusDot::new("L").enabled(false).enabled);
    assert_eq!(Status::Warning.label(), "warning");
    assert_eq!(Status::Nominal.label(), "ok");
}

#[test]
fn empty_label_speaks_status() {
    let node = StatusDot::new("").enabled(false).accessibility();
    assert_eq!(node.label.as_deref(), Some("Status"));
    assert_eq!(node.value.as_deref(), Some("off"));
    assert!(node.disabled);
}

#[test]
fn statistic_builder() {
    let s = Statistic::new("Uptime", "99.9%")
        .prefix("~")
        .suffix("avg")
        .trend(Trend::Up, "+0.1%")
        .enabled(false);
    assert_eq!(s.title(), "Uptime");
    assert_eq!(s.value_text(), "99.9%");
    assert_eq!(s.get_prefix(), Some("~"));
    assert_eq!(s.get_suffix(), Some("avg"));
    assert_eq!(s.get_trend(), Some((Trend::Up, "+0.1%")));
    assert!(!s.enabled);
}

#[test]
fn set_value_updates() {
    let mut s = Statistic::new("a", "1");
    s.set_value("42");
    assert_eq!(s.value_text(), "42");
}

#[test]
fn accessibility_speaks_summary() {
    let s = Statistic::new("Latency", "42ms").trend(Trend::Down, "-3%");
    let node = s.accessibility();
    assert_eq!(node.role, Role::Group);
    let label = node.label.unwrap_or_default();
    assert!(label.contains("Latency"));
    assert!(label.contains("42ms"));
    assert!(label.contains("down"));
    assert_eq!(label, "Latency: 42ms (down -3%)");
    let plain = Statistic::new("Users", "7").accessibility();
    assert_eq!(plain.label.as_deref(), Some("Users: 7"));
}

#[test]
fn statistic_doc_examples() {
    assert_eq!(Trend::default(), Trend::Neutral);
    let s = Statistic::new("Revenue", "$12,400");
    assert_eq!(s.value_text(), "$12,400");
    assert_eq!(Statistic::new("a", "1").get_prefix(), None);
    assert_eq!(Statistic::new("a", "1").get_suffix(), None);
    assert_eq!(Statistic::new("a", "1").get_trend(), None);
    let d = Statistic::default();
    assert_eq!(d.title(), "");
    assert_eq!(d.value_text(), "0");
    assert_eq!(
        Statistic::new("a", "1").trend(Trend::Neutral, "0").accessibility().label.as_deref(),
        Some("a: 1 (flat 0)")
    );
}
