use std::time::Duration;

use martensite::access::Role;
use martensite::event::{EventResponse, PointerButton};
use martensite::widgets::step_sequencer::StepSequencer;

fn ns(d: Duration) -> u64 {
    d.as_nanos() as u64
}

fn tap_cell(s: &mut StepSequencer, r: usize, c: usize) {
    s.pointer_pressed(PointerButton::Primary, Some((r, c)));
    s.pointer_released(PointerButton::Primary, Some((r, c)));
}

#[test]
fn step_sequencer_click_toggles_and_parks() {
    let mut s = StepSequencer::new(2, 8);
    tap_cell(&mut s, 1, 3);
    assert!(s.cell(1, 3));
    assert_eq!(s.take_changed(), Some((1, 3, true)));
    tap_cell(&mut s, 1, 3);
    assert!(!s.cell(1, 3));
    assert_eq!(s.take_changed(), Some((1, 3, false)));
}

#[test]
fn playhead_advances_and_parks() {
    let mut s = StepSequencer::new(1, 4).step_ns(ns(Duration::from_millis(100)));
    s.set_playing(true);
    assert!(s.tick(ns(Duration::from_millis(150))));
    assert_eq!(s.play_col(), 1);
    assert_eq!(s.take_step(), Some(1));
    // Wraps.
    for _ in 0..3 {
        s.tick(ns(Duration::from_millis(150)));
    }
    assert_eq!(s.play_col(), 0);
    assert_eq!(s.take_step(), Some(0));
}

#[test]
fn space_toggles_play() {
    let mut s = StepSequencer::new(1, 4);
    s.key_pressed(" ");
    assert!(s.is_playing());
    s.key_pressed(" ");
    assert!(!s.is_playing());
}

#[test]
fn stopped_tick_idles() {
    let mut s = StepSequencer::new(1, 4);
    assert!(!s.tick(ns(Duration::from_secs(1))));
    assert_eq!(s.play_col(), 0);
}

#[test]
fn step_sequencer_doc_examples() {
    let s = StepSequencer::new(4, 16);
    assert_eq!(s.row_count(), 4);
    assert_eq!(StepSequencer::new(2, 8).col_count(), 8);
    assert_eq!(StepSequencer::new(2, 4).lanes(vec!["kick", "snare"]).lanes.len(), 2);
    assert_eq!(StepSequencer::new(1, 4).step_ns(250_000_000).step_ns, 250_000_000);
    assert_eq!(StepSequencer::new(1, 4).step_ns(1).step_ns, 10_000_000);
    assert_eq!(StepSequencer::new(1, 4).label("Drums").label, "Drums");
    assert!(StepSequencer::new(2, 4).cells_on(vec![(0, 1)]).cell(0, 1));
    assert!(!StepSequencer::new(1, 4).cell(0, 0));
    let mut s = StepSequencer::new(1, 4);
    s.set_cell(0, 2, true);
    assert!(s.cell(0, 2));
    let mut s = StepSequencer::new(1, 2).cells_on(vec![(0, 0)]);
    s.clear();
    assert!(!s.cell(0, 0));
    assert_eq!(s.take_changed(), None);
    assert_eq!(s.take_step(), None);
}

#[test]
fn release_elsewhere_and_outside_cells() {
    let mut s = StepSequencer::new(2, 2).cells_on(vec![(5, 5), (1, 1)]);
    assert!(s.cell(1, 1));
    assert!(!s.cell(5, 5));
    assert_eq!(
        s.pointer_pressed(PointerButton::Primary, Some((0, 0))),
        EventResponse::CapturePointer
    );
    assert_eq!(
        s.pointer_released(PointerButton::Primary, Some((0, 1))),
        EventResponse::ReleasePointer
    );
    assert!(!s.cell(0, 0));
    assert_eq!(s.take_changed(), None);
    assert_eq!(
        s.pointer_released(PointerButton::Primary, Some((0, 1))),
        EventResponse::Ignored
    );
    assert_eq!(
        s.pointer_pressed(PointerButton::Primary, Some((2, 0))),
        EventResponse::Ignored
    );
    assert_eq!(s.pointer_pressed(PointerButton::Secondary, Some((0, 0))), EventResponse::Ignored);
}

#[test]
fn step_sequencer_accessibility() {
    let s = StepSequencer::new(2, 8).cells_on(vec![(0, 0), (1, 4), (1, 5)]);
    let node = s.accessibility();
    assert_eq!(node.role, Role::Grid);
    assert_eq!(node.label.as_deref(), Some("Step sequencer"));
    assert_eq!(node.value.as_deref(), Some("3 steps on"));
}

#[test]
fn empty_grid_never_steps() {
    let mut s = StepSequencer::new(2, 0);
    s.set_playing(true);
    assert!(!s.tick(1_000_000_000));
}
