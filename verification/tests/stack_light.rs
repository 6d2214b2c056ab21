use martensite::access::Role;
use martensite::event::{EventResponse, PointerButton};
use martensite::widgets::stack_light::{Lamp, StackLight};

#[test]
fn lamps_toggle() {
    let mut t = StackLight::new()
        .lamp(Lamp::new("r", [255, 0, 0, 255]))
        .lamp(Lamp::new("g", [0, 255, 0, 255]).lit(true));
    assert!(!t.lit(0));
    assert!(t.lit(1));
    t.toggle(0);
    t.set(1, false);
    assert!(t.lit(0));
    assert!(!t.lit(1));
}

#[test]
fn stack_light_click_toggles_and_parks() {
    let mut t = StackLight::new()
        .lamp(Lamp::new("r", [255, 0, 0, 255]))
        .lamp(Lamp::new("g", [0, 255, 0, 255]));
    // A primary press inside the tower, on the second lamp.
    assert_eq!(
        t.pointer_pressed(PointerButton::Primary, true, Some(1)),
        EventResponse::RequestRepaint
    );
    assert!(t.lit(1));
    assert_eq!(t.take_changed(), Some(1));
    assert_eq!(t.take_changed(), None);
}

#[test]
fn flashing_ticks_only_when_lit() {
    let mut t = StackLight::new().lamp(Lamp::new("r", [255, 0, 0, 255]).flashing(true));
    assert!(!t.tick(50_000_000));
    t.set(0, true);
    assert!(t.tick(50_000_000));
    // 50 ms into the cycle the flashing lamp is in its on phase.
    assert!(t.lamp_visible(0));
}

#[test]
fn stack_light_doc_examples() {
    let mut t = StackLight::new()
        .lamp(Lamp::new("Fault", [235, 87, 87, 255]))
        .lamp(Lamp::new("Run", [92, 200, 120, 255]).lit(true));
    assert_eq!(t.lamp_count(), 2);
    assert!(t.lit(1));
    t.set(0, true);
    assert!(t.lit(0));
    let l = Lamp::new("Run", [92, 200, 120, 255]);
    assert_eq!(l.label, "Run");
    assert!(!l.lit);
    assert!(Lamp::new("x", [255, 0, 0, 255]).flashing(true).flashing);
    assert_eq!(StackLight::new().label("Cell 3").label, "Cell 3");
    let w = StackLight::new().lamp(Lamp::new("Warn", [245, 176, 66, 255]));
    assert_eq!(w.lamp_at(0).unwrap().label, "Warn");
    assert!(w.lamp_at(1).is_none());
    assert!(!w.lit(5));
}

#[test]
fn press_outside_or_between_lamps() {
    let mut t = StackLight::new().lamp(Lamp::new("r", [255, 0, 0, 255]));
    assert_eq!(
        t.pointer_pressed(PointerButton::Primary, false, None),
        EventResponse::Ignored
    );
    assert_eq!(
        t.pointer_pressed(PointerButton::Primary, true, None),
        EventResponse::Handled
    );
    assert_eq!(
        t.pointer_pressed(PointerButton::Secondary, true, Some(0)),
        EventResponse::Ignored
    );
    assert!(!t.lit(0));
    assert_eq!(t.take_changed(), None);
}

#[test]
fn blink_hides_flashing_lamp_in_off_phase() {
    let mut t = StackLight::new()
        .lamp(Lamp::new("a", [255, 0, 0, 255]).lit(true).flashing(true))
        .lamp(Lamp::new("b", [0, 255, 0, 255]).lit(true));
    // 500 ms into a 714 ms cycle: past the 55 % on phase.
    assert!(t.tick(500_000_000));
    assert!(!t.lamp_visible(0));
    assert!(t.lamp_visible(1));
    // Another 300 ms wraps into the next cycle's on phase.
    assert!(t.tick(300_000_000));
    assert!(t.lamp_visible(0));
}

#[test]
fn accessibility_lists_lit_lamps() {
    let t = StackLight::new()
        .lamp(Lamp::new("Fault", [235, 87, 87, 255]).lit(true))
        .lamp(Lamp::new("Warn", [245, 176, 66, 255]))
        .lamp(Lamp::new("Run", [92, 200, 120, 255]).lit(true));
    let node = t.accessibility();
    assert_eq!(node.role, Role::Image);
    assert_eq!(node.label.as_deref(), Some("Signal tower — lit: Fault, Run"));
    let off = StackLight::new().lamp(Lamp::new("x", [0, 0, 0, 255]));
    assert_eq!(
        off.accessibility().label.as_deref(),
        Some("Signal tower — all lamps off")
    );
}

#[test]
fn toggle_twice_restores() {
    let mut t = StackLight::new().lamp(Lamp::new("a", [1, 2, 3, 4]));
    t.toggle(0);
    t.toggle(0);
    assert!(!t.lit(0));
    t.toggle(7);
    assert_eq!(t.lamp_count(), 1);
}
