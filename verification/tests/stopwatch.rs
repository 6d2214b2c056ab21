use std::time::Duration;

use martensite::access::Role;
use martensite::widgets::stopwatch::Stopwatch;

fn ns(d: Duration) -> u128 {
    d.as_nanos()
}

#[test]
fn tick_accumulates_only_while_running() {
    let mut s = Stopwatch::new();
    assert!(!s.tick(ns(Duration::from_millis(100))));
    assert_eq!(s.elapsed(), ns(Duration::ZERO));
    s.start();
    assert!(s.tick(ns(Duration::from_millis(250))));
    assert_eq!(s.elapsed(), ns(Duration::from_millis(250)));
    s.stop();
    assert!(!s.tick(ns(Duration::from_millis(250))));
    assert_eq!(s.elapsed(), ns(Duration::from_millis(250)));
}

#[test]
fn face_formats() {
    assert_eq!(Stopwatch::fmt_face(ns(Duration::ZERO)), "00:00.00");
    assert_eq!(
        Stopwatch::fmt_face(ns(Duration::from_millis(59990))),
        "00:59.99"
    );
    assert_eq!(Stopwatch::fmt_face(ns(Duration::from_secs(3600))), "1:00:00");
}

#[test]
fn lap_records_splits() {
    let mut s = Stopwatch::new().running(true);
    s.tick(ns(Duration::from_secs(2)));
    s.key_pressed("l");
    s.tick(ns(Duration::from_secs(1)));
    s.key_pressed("l");
    assert_eq!(s.lap_count(), 2);
    assert_eq!(s.lap_at(0), Some(ns(Duration::from_secs(2))));
    assert_eq!(s.lap_at(1), Some(ns(Duration::from_secs(3))));
}

#[test]
fn space_toggles_and_reset_keeps_state() {
    let mut s = Stopwatch::new();
    s.key_pressed(" ");
    assert!(s.is_running());
    s.key_pressed(" ");
    assert!(!s.is_running());
    s.key_pressed("Enter");
    assert!(s.is_running());
    s.key_pressed("l");
    s.key_pressed("r");
    assert_eq!(s.lap_count(), 0);
    assert_eq!(s.elapsed(), ns(Duration::ZERO));
    assert!(s.is_running());
}

#[test]
fn stopwatch_doc_examples() {
    assert_eq!(Stopwatch::new().lap_count(), 0);
    assert!(!Stopwatch::new().is_running());
    assert_eq!(Stopwatch::new().label("Sprint").label, "Sprint");
    assert!(Stopwatch::new().running(true).is_running());
    let mut s = Stopwatch::new();
    s.toggle();
    assert!(s.is_running());
    s.toggle();
    assert!(!s.is_running());
    s.lap();
    assert_eq!(s.lap_at(0), Some(0));
    assert_eq!(s.take_lapped(), Some(0));
    assert_eq!(s.take_lapped(), None);
    assert_eq!(
        Stopwatch::fmt_face(ns(Duration::from_millis(61500))),
        "01:01.50"
    );
    assert_eq!(Stopwatch::new().face(), "00:00.00");
}

#[test]
fn face_past_hours_and_other_keys() {
    assert_eq!(
        Stopwatch::fmt_face(ns(Duration::from_secs(10 * 3600 + 5 * 60 + 9))),
        "10:05:09"
    );
    assert_eq!(Stopwatch::fmt_face(ns(Duration::from_millis(599_999))), "09:59.99");
    let mut s = Stopwatch::new();
    assert_eq!(
        s.key_pressed("Space"),
        martensite::event::EventResponse::Ignored
    );
    assert!(!s.is_running());
    s.key_pressed("L");
    s.key_pressed("R");
    assert_eq!(s.lap_count(), 0);
}

#[test]
fn stopwatch_accessibility() {
    let mut s = Stopwatch::new().running(true);
    s.tick(ns(Duration::from_millis(1234)));
    let node = s.accessibility();
    assert_eq!(node.role, Role::Time);
    assert_eq!(node.label.as_deref(), Some("Stopwatch — 00:01.23"));
}
