use martensite::access::{Orientation, Role};
use martensite::event::{EventResponse, PointerButton, SemanticAction};
use martensite::widgets::{FlexDirection, Segmented};

fn strip(labels: &[&str]) -> Segmented {
    Segmented::new().options(labels.to_vec())
}

#[test]
fn builder_collects_options() {
    let seg = Segmented::new()
        .option("A")
        .options(vec!["B", "C"])
        .selected(2)
        .enabled(true);
    assert_eq!(seg.option_count(), 3);
    assert_eq!(seg.selected_index(), 2);
}

#[test]
fn single_checked_invariant() {
    let mut seg = strip(&["A", "B", "C"]);
    for i in 0..3 {
        seg.set_selected(i);
        let checked: Vec<bool> = (0..3)
            .map(|j| seg.child(j).unwrap().accessibility().toggled == Some(true))
            .collect();
        assert_eq!(checked.iter().filter(|c| **c).count(), 1);
        assert!(checked[i]);
    }
}

#[test]
fn arrows_move_and_select() {
    let mut seg = strip(&["A", "B", "C"]);
    seg.key_pressed("ArrowRight");
    assert_eq!(seg.focused_index(), 1);
    assert_eq!(seg.selected_index(), 1);
    seg.key_pressed("ArrowRight");
    assert_eq!(seg.selected_index(), 2);
    // Wraparound.
    seg.key_pressed("ArrowRight");
    assert_eq!(seg.selected_index(), 0);
    seg.key_pressed("ArrowLeft");
    assert_eq!(seg.selected_index(), 2);
}

#[test]
fn home_end_and_space() {
    let mut seg = strip(&["A", "B", "C"]);
    seg.key_pressed("End");
    assert_eq!(seg.selected_index(), 2);
    seg.key_pressed("Home");
    assert_eq!(seg.selected_index(), 0);
    // Move the tab stop to segment 1 without selecting it.
    seg.child_mut(1).unwrap().semantic_action(SemanticAction::Focus);
    seg.poll_pending();
    assert_eq!(seg.focused_index(), 1);
    assert_eq!(seg.selected_index(), 0);
    seg.key_pressed("Space");
    assert_eq!(seg.selected_index(), 1);
}

#[test]
fn roving_tabindex_single_focus_action() {
    let seg = strip(&["A", "B", "C"]);
    let focus_actions: Vec<bool> = (0..3)
        .map(|i| seg.child(i).unwrap().accessibility().focus_action)
        .collect();
    assert_eq!(focus_actions, vec![true, false, false]);
}

#[test]
fn click_selects_segment() {
    let mut seg = strip(&["A", "B", "C"]);
    // The press lands on the third segment.
    assert_eq!(
        seg.pointer_pressed(PointerButton::Primary, Some(2)),
        EventResponse::CaptureFocus
    );
    assert_eq!(seg.selected_index(), 2);
}

#[test]
fn pending_activation_from_child_click() {
    let mut seg = strip(&["A", "B", "C"]);
    let segment = seg.child_mut(2).unwrap();
    assert_eq!(
        segment.semantic_action(SemanticAction::Click),
        EventResponse::Handled
    );
    seg.poll_pending();
    assert_eq!(seg.selected_index(), 2);
}

#[test]
fn take_selected_drains_once() {
    let mut seg = strip(&["A", "B"]);
    assert_eq!(seg.take_selected(), None);
    seg.set_selected(1);
    assert_eq!(seg.take_selected(), Some(1));
    assert_eq!(seg.take_selected(), None);
    // Re-selecting the same index reports nothing.
    seg.set_selected(1);
    assert_eq!(seg.take_selected(), None);
}

#[test]
fn group_accessibility_role_and_orientation() {
    let seg = strip(&["A"]).label("View").direction(FlexDirection::Column);
    let node = seg.accessibility();
    assert_eq!(node.role, Role::RadioGroup);
    assert_eq!(node.label.as_deref(), Some("View"));
    assert_eq!(node.orientation, Some(Orientation::Vertical));
}

#[test]
fn segment_a11y_pos_in_set() {
    let seg = strip(&["A", "B", "C"]);
    let node = seg.child(1).unwrap().accessibility();
    assert_eq!(node.role, Role::RadioButton);
    // Positions are zero-based.
    assert_eq!(node.position_in_set, Some(1));
    assert_eq!(node.size_of_set, Some(3));
}

#[test]
fn segmented_disabled_ignores_events() {
    let mut seg = strip(&["A", "B"]).enabled(false);
    assert_eq!(seg.key_pressed("ArrowRight"), EventResponse::Ignored);
    assert_eq!(seg.selected_index(), 0);
}

#[test]
fn segmented_debug_format() {
    let seg = strip(&["A", "B"]);
    let debug = format!("{:?}", seg);
    assert!(debug.contains("Segmented"));
}

#[test]
fn out_of_range_selection_ignored() {
    let mut seg = strip(&["A", "B", "C"]);
    seg.set_selected(1);
    seg.set_selected(9);
    assert_eq!(seg.selected_index(), 1);
}

#[test]
fn arrows_up_down_cycle_and_other_keys_ignored() {
    let mut seg = strip(&["A", "B", "C"]);
    assert_eq!(seg.key_pressed("ArrowUp"), EventResponse::RequestRepaint);
    assert_eq!(seg.selected_index(), 2);
    assert_eq!(seg.key_pressed("ArrowDown"), EventResponse::RequestRepaint);
    assert_eq!(seg.selected_index(), 0);
    assert_eq!(seg.key_pressed("x"), EventResponse::Ignored);
    assert_eq!(seg.selected_index(), 0);
}

#[test]
fn empty_strip_tolerates_keys() {
    let mut seg = Segmented::new();
    assert_eq!(seg.key_pressed("ArrowRight"), EventResponse::RequestRepaint);
    assert_eq!(seg.key_pressed("End"), EventResponse::RequestRepaint);
    assert_eq!(seg.selected_index(), 0);
    assert_eq!(seg.take_selected(), None);
}

#[test]
fn group_click_and_focus_actions() {
    let mut seg = strip(&["A", "B"]);
    seg.child_mut(1).unwrap().semantic_action(SemanticAction::Focus);
    assert_eq!(
        seg.semantic_action(SemanticAction::Click),
        EventResponse::RequestRepaint
    );
    assert_eq!(seg.selected_index(), 1);
    assert_eq!(
        seg.semantic_action(SemanticAction::Focus),
        EventResponse::CaptureFocus
    );
    assert_eq!(
        seg.semantic_action(SemanticAction::Increment),
        EventResponse::Ignored
    );
}

#[test]
fn secondary_press_ignored() {
    let mut seg = strip(&["A", "B"]);
    assert_eq!(
        seg.pointer_pressed(PointerButton::Secondary, Some(1)),
        EventResponse::Ignored
    );
    assert_eq!(seg.pointer_pressed(PointerButton::Primary, None), EventResponse::Ignored);
    assert_eq!(seg.selected_index(), 0);
}

#[test]
fn options_clamp_selection_after_append() {
    let seg = strip(&["A", "B", "C"]).selected(2);
    let node = seg.child(2).unwrap().accessibility();
    assert_eq!(node.toggled, Some(true));
    assert_eq!(seg.child(0).unwrap().label(), "A");
}
