use std::time::Duration;

use martensite::access::Role;
use martensite::widgets::split_flap::{flap_index, SplitFlap, FLAPS};

const FLIP_SECS: f32 = 0.06;

fn ns(d: Duration) -> u64 {
    d.as_nanos() as u64
}

#[test]
fn settles_on_blank() {
    assert!(SplitFlap::new().settled());
}

#[test]
fn target_index_maps() {
    let s = SplitFlap::new().text("A7");
    assert_eq!(s.target_index(0), 1);
    assert_eq!(s.target_index(1), 34);
    assert_eq!(flap_index('a'), 1);
    assert_eq!(flap_index('/'), FLAPS - 1);
}

#[test]
fn tick_advances_left_first() {
    let mut s = SplitFlap::new().cells(2).text("AB");
    assert!(!s.settled());
    // Each tick of about one flip interval advances cell 0 until it lands.
    for _ in 0..40 {
        s.tick(ns(Duration::from_secs_f32(FLIP_SECS)));
    }
    assert!(s.settled());
}

#[test]
fn sub_frame_time_accumulates() {
    let mut s = SplitFlap::new().cells(1).text("Z");
    s.tick(ns(Duration::from_secs_f32(FLIP_SECS / 2.0)));
    assert_eq!(s.flap_at(0), Some(0)); // not yet
    s.tick(ns(Duration::from_secs_f32(FLIP_SECS / 2.0 + 0.001)));
    assert_eq!(s.flap_at(0), Some(1)); // stepped
}

#[test]
fn unknown_char_blank() {
    let s = SplitFlap::new().text("é");
    assert_eq!(s.target_index(0), 0); // falls back to blank
}

#[test]
fn split_flap_doc_examples() {
    let s = SplitFlap::new().cells(6).text("GATE 4");
    assert_eq!(s.target_text(), "GATE 4");
    assert_eq!(SplitFlap::new().cell_count(), 8);
    assert_eq!(SplitFlap::new().cells(12).cell_count(), 12);
    assert_eq!(SplitFlap::new().cells(0).cell_count(), 1);
    let s = SplitFlap::new().cells(4).text("AB");
    assert_eq!(s.target_text(), "AB");
    assert_eq!(SplitFlap::new().label("Board").label, "Board");
    assert_eq!(SplitFlap::new().cells(5).cell_count(), 5);
    assert_eq!(SplitFlap::new().text("OK").target_text(), "OK");
}

#[test]
fn ripple_lands_left_cell_first() {
    let mut s = SplitFlap::new().cells(3).text("BA");
    // Cell 0 needs two steps; cell 1 must wait for it.
    assert!(s.tick(ns(Duration::from_millis(60))));
    assert_eq!(s.flap_at(0), Some(1));
    assert_eq!(s.flap_at(1), Some(0));
    s.tick(ns(Duration::from_millis(60)));
    assert_eq!(s.flap_at(0), Some(2));
    assert_eq!(s.flap_at(1), Some(0));
    s.tick(ns(Duration::from_millis(60)));
    assert_eq!(s.flap_at(1), Some(1));
    assert!(s.settled());
    assert!(!s.tick(ns(Duration::from_millis(60))));
    assert_eq!(s.flap_at(3), None);
}

#[test]
fn wheel_wraps_past_the_end() {
    let mut s = SplitFlap::new().cells(1).text("/");
    let mut steps = 0;
    while !s.settled() {
        s.tick(60_000_000);
        steps += 1;
    }
    assert_eq!(steps, FLAPS - 1);
    let mut back = s.text(" ");
    let mut more = 0;
    while !back.settled() {
        back.tick(60_000_000);
        more += 1;
    }
    assert_eq!(more, 1); // one more flap wraps to blank
}

#[test]
fn split_flap_accessibility() {
    let s = SplitFlap::new().text("GATE");
    let node = s.accessibility();
    assert_eq!(node.role, Role::Image);
    assert_eq!(node.label.as_deref(), Some("Departure board — GATE"));
}
