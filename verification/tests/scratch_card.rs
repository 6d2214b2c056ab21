use martensite::access::Role;
use martensite::event::{EventResponse, PointerButton};
use martensite::widgets::scratch_card::{ScratchCard, CELLS, COLS, ROWS};

/// The cells a brush of radius 1.6 tiles covers around the tile under
/// `(x, y)` on a 240 × 160 card (20-point square tiles).
fn brush(x: f32, y: f32) -> Vec<usize> {
    let cx = (x / 20.0).floor() as i32;
    let cy = (y / 20.0).floor() as i32;
    let mut out = Vec::new();
    for row in 0..ROWS as i32 {
        for col in 0..COLS as i32 {
            let dx = (col - cx) as f32 * 20.0;
            let dy = (row - cy) as f32 * 20.0;
            if dx * dx + dy * dy <= (1.6f32 * 20.0).powi(2) {
                out.push(row as usize * COLS + col as usize);
            }
        }
    }
    out
}

fn drag(c: &mut ScratchCard, x: f32, y: f32) {
    let b = brush(x, y);
    c.pointer_pressed(PointerButton::Primary, Some(&b));
    c.pointer_released(PointerButton::Primary);
}

#[test]
fn scratch_increases_progress() {
    let mut c = ScratchCard::new();
    drag(&mut c, 20.0, 20.0);
    assert!(c.progress_cells() > 0);
}

#[test]
fn crossing_threshold_reveals() {
    let mut c = ScratchCard::new().reveal_threshold(20);
    for x in (0..240).step_by(20) {
        drag(&mut c, x as f32, 80.0);
    }
    assert!(c.is_revealed());
    assert!(c.take_revealed());
    assert!(!c.take_revealed());
}

#[test]
fn reset_recovers() {
    let mut c = ScratchCard::new();
    drag(&mut c, 20.0, 20.0);
    c.reset();
    assert_eq!(c.progress_cells(), 0);
    assert!(c.covered);
}

#[test]
fn scratch_card_doc_examples() {
    let c = ScratchCard::new();
    assert_eq!(c.progress_cells(), 0);
    assert!(c.covered);
    assert!(!c.is_revealed());
    assert_eq!(c.child_count(), 1);
    assert_eq!(ScratchCard::new().label("Prize").label, "Prize");
    // A fraction of 0.5 calls for 48 cells.
    assert_eq!(ScratchCard::new().reveal_threshold(48).reveal_cells, 48);
    assert_eq!(ScratchCard::new().reveal_threshold(1).reveal_cells, 5);
    assert_eq!(ScratchCard::new().reveal_threshold(300).reveal_cells, CELLS);
    assert_eq!(ScratchCard::new().reveal_cells, 58);
    assert!(!ScratchCard::new().take_revealed());
}

#[test]
fn scratch_card_brush_counts_and_reveal() {
    let mut c = ScratchCard::new();
    drag(&mut c, 20.0, 20.0);
    assert_eq!(c.progress_cells(), 9);
    // Overlapping strokes count each cell once.
    drag(&mut c, 20.0, 20.0);
    assert_eq!(c.progress_cells(), 9);
    let n = c.accessibility();
    assert_eq!(n.role, Role::Group);
    assert_eq!(n.label.as_deref(), Some("Scratch card"));
    // 9 of 96 cells: 9.375% reads as 9%.
    assert_eq!(n.value.as_deref(), Some("9% scratched"));
    // 58 cells (60.4%) reveal at the default 0.6; 57 (59.4%) do not.
    let mut c = ScratchCard::new();
    let first: Vec<usize> = (0..57).collect();
    c.pointer_pressed(PointerButton::Primary, Some(&first));
    assert!(!c.is_revealed());
    let next = vec![57usize, 500];
    assert_eq!(c.pointer_moved(Some(&next)), EventResponse::RequestRepaint);
    assert!(c.is_revealed());
    assert!(!c.covered);
    assert_eq!(c.progress_cells(), CELLS);
    assert_eq!(c.accessibility().value.as_deref(), Some("revealed"));
    // A revealed card takes no more input.
    assert_eq!(c.pointer_moved(Some(&next)), EventResponse::Ignored);
    assert!(c.take_revealed());
    assert!(!c.take_revealed());
}

#[test]
fn scratch_card_percent_rounds_ties_to_even() {
    let mut c = ScratchCard::new().reveal_threshold(96);
    let twelve: Vec<usize> = (0..12).collect();
    c.pointer_pressed(PointerButton::Primary, Some(&twelve));
    // 12 of 96 is 12.5%.
    assert_eq!(c.accessibility().value.as_deref(), Some("12% scratched"));
    let more: Vec<usize> = (12..36).collect();
    c.pointer_moved(Some(&more));
    // 36 of 96 is 37.5%.
    assert_eq!(c.accessibility().value.as_deref(), Some("38% scratched"));
    assert_eq!(
        format!("{:.0}% scratched", (12f32 / 96f32) * 100.0),
        "12% scratched"
    );
}

#[test]
fn scratch_card_moves_need_a_press() {
    let mut c = ScratchCard::new();
    let b = brush(100.0, 100.0);
    assert_eq!(c.pointer_moved(Some(&b)), EventResponse::Ignored);
    assert_eq!(c.progress_cells(), 0);
    assert_eq!(
        c.pointer_pressed(PointerButton::Secondary, Some(&b)),
        EventResponse::Ignored
    );
    assert_eq!(
        c.pointer_pressed(PointerButton::Primary, None),
        EventResponse::RequestRepaint
    );
    assert_eq!(c.progress_cells(), 0);
    assert_eq!(c.pointer_moved(Some(&b)), EventResponse::RequestRepaint);
    assert_eq!(c.progress_cells(), 9);
    assert_eq!(
        c.pointer_released(PointerButton::Primary),
        EventResponse::RequestRepaint
    );
    assert_eq!(c.pointer_moved(Some(&brush(0.0, 0.0))), EventResponse::Ignored);
}

#[test]
fn scratch_card_threshold_counts_cells() {
    // A threshold fraction of 0.334 calls for 33 of the 96 cells.
    let needed = (0..=CELLS)
        .find(|&n| n as f32 / CELLS as f32 >= 0.334f32)
        .unwrap();
    assert_eq!(needed, 33);
    let mut c = ScratchCard::new().reveal_threshold(needed);
    let first: Vec<usize> = (0..32).collect();
    c.pointer_pressed(PointerButton::Primary, Some(&first));
    assert!(!c.is_revealed());
    c.pointer_moved(Some(&vec![32usize]));
    assert!(c.is_revealed());
}
