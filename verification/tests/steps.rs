use martensite::access::Role;
use martensite::event::{EventResponse, PointerButton};
use martensite::widgets::steps::{Step, Steps};

fn four(current: usize) -> Steps {
    Steps::new()
        .steps(vec!["One", "Two", "Three", "Four"])
        .current(current)
}

#[test]
fn builder_and_clamping() {
    let s = Steps::new().steps(vec!["A", "B"]).current(9);
    assert_eq!(s.current_step(), 1);
    assert_eq!(s.step_count(), 2);
}

#[test]
fn advance_walks_forward() {
    let mut s = Steps::new().steps(vec!["A", "B", "C"]);
    s.advance();
    s.advance();
    s.advance(); // clamped at end
    assert_eq!(s.current_step(), 2);
}

#[test]
fn completed_step_click_navigates() {
    let mut s = four(2); // steps 0,1 completed
    assert_eq!(
        s.pointer_pressed(PointerButton::Primary, Some(0)),
        EventResponse::Handled
    );
    assert_eq!(s.take_navigated(), Some(0));
}

#[test]
fn current_and_future_steps_inert() {
    let mut s = four(1); // current=1; steps 2,3 upcoming
    for idx in [1, 2, 3] {
        assert_eq!(
            s.pointer_pressed(PointerButton::Primary, Some(idx)),
            EventResponse::Ignored
        );
    }
    assert_eq!(s.take_navigated(), None);
}

#[test]
fn clickable_completed_false_disables() {
    let mut s = Steps::new()
        .steps(vec!["A", "B", "C"])
        .current(2)
        .clickable_completed(false);
    assert_eq!(
        s.pointer_pressed(PointerButton::Primary, Some(0)),
        EventResponse::Ignored
    );
}

#[test]
fn descriptions_flow_through() {
    let s = Steps::new().steps_full(vec![Step::new("A").description("desc")]);
    assert_eq!(s.step_count(), 1);
    assert_eq!(s.step_at(0).unwrap().description.as_deref(), Some("desc"));
}

#[test]
fn steps_doc_examples() {
    let s = Steps::new().steps(vec!["Account", "Profile", "Done"]).current(1);
    assert_eq!(s.current_step(), 1);
    assert_eq!(Step::new("Review").label, "Review");
    assert_eq!(Steps::new().step_count(), 0);
    let mut s = Steps::new().steps(vec!["A", "B"]);
    s.set_current(1);
    assert_eq!(s.current_step(), 1);
    assert_eq!(s.take_navigated(), None);
}

#[test]
fn hover_highlights_only_completed_steps() {
    let mut s = four(2);
    assert_eq!(s.pointer_moved(Some(3)), EventResponse::Handled);
    assert_eq!(s.pointer_moved(Some(1)), EventResponse::RequestRepaint);
    assert_eq!(s.pointer_moved(Some(1)), EventResponse::Handled);
    assert_eq!(s.key_pressed("Enter"), EventResponse::Handled);
    assert_eq!(s.take_navigated(), Some(1));
    assert_eq!(s.pointer_leave(), EventResponse::RequestRepaint);
    assert_eq!(s.key_pressed("Space"), EventResponse::Ignored);
}

#[test]
fn arrows_walk_completed_steps() {
    let mut s = four(3); // targets 0, 1, 2
    assert_eq!(s.key_pressed("ArrowRight"), EventResponse::RequestRepaint);
    assert_eq!(s.key_pressed("Enter"), EventResponse::Handled);
    assert_eq!(s.take_navigated(), Some(0));
    s.key_pressed("ArrowRight");
    s.key_pressed("ArrowRight");
    s.key_pressed("ArrowRight"); // clamps at the last completed step
    s.key_pressed(" ");
    assert_eq!(s.take_navigated(), Some(2));
    s.key_pressed("ArrowLeft");
    s.key_pressed("Enter");
    assert_eq!(s.take_navigated(), Some(1));
    let mut first = four(0);
    assert_eq!(first.key_pressed("ArrowRight"), EventResponse::Ignored);
    assert_eq!(first.key_pressed("Tab"), EventResponse::Ignored);
}

#[test]
fn accessibility_counts_steps() {
    let s = four(1);
    let node = s.accessibility();
    assert_eq!(node.role, Role::Group);
    assert_eq!(node.label.as_deref(), Some("Step 2 of 4"));
}

#[test]
fn replacing_steps_reclamps_current() {
    let s = four(3).steps(vec!["X", "Y"]);
    assert_eq!(s.current_step(), 1);
    let e = four(3).steps(vec![]);
    assert_eq!(e.current_step(), 0);
}
