use martensite::event::{EventResponse, PointerButton, SemanticAction};
use martensite::widgets::scrollview::{
    bar_request, BarRequest, ScrollAction, ScrollDir, ScrollInput, ScrollOutcome, ScrollZone,
};
use martensite::widgets::slider::{SliderCommand, SliderInput};

#[test]
fn slider_input_press_drag_release() {
    let mut s = SliderInput::new(true);
    assert_eq!(
        s.pointer_pressed(PointerButton::Primary),
        (SliderCommand::FromPoint, EventResponse::CapturePointer)
    );
    assert!(s.is_dragging());
    assert_eq!(
        s.pointer_moved(),
        (SliderCommand::FromPoint, EventResponse::RequestRepaint)
    );
    assert_eq!(
        s.pointer_released(PointerButton::Primary),
        (SliderCommand::FromPoint, EventResponse::ReleasePointer)
    );
    assert!(!s.is_dragging());
    assert_eq!(s.pointer_moved(), (SliderCommand::Nothing, EventResponse::Ignored));
    assert_eq!(
        s.pointer_released(PointerButton::Primary),
        (SliderCommand::Nothing, EventResponse::Ignored)
    );
    assert_eq!(
        s.pointer_pressed(PointerButton::Secondary),
        (SliderCommand::Nothing, EventResponse::Ignored)
    );
}

#[test]
fn slider_input_keys_and_actions() {
    let s = SliderInput::new(true);
    let r = EventResponse::RequestRepaint;
    assert_eq!(s.key_pressed("ArrowRight"), (SliderCommand::StepUp, r));
    assert_eq!(s.key_pressed("ArrowUp"), (SliderCommand::StepUp, r));
    assert_eq!(s.key_pressed("ArrowLeft"), (SliderCommand::StepDown, r));
    assert_eq!(s.key_pressed("ArrowDown"), (SliderCommand::StepDown, r));
    assert_eq!(s.key_pressed("PageUp"), (SliderCommand::PageUp, r));
    assert_eq!(s.key_pressed("PageDown"), (SliderCommand::PageDown, r));
    assert_eq!(s.key_pressed("Home"), (SliderCommand::ToMin, r));
    assert_eq!(s.key_pressed("End"), (SliderCommand::ToMax, r));
    assert_eq!(
        s.key_pressed("Enter"),
        (SliderCommand::Nothing, EventResponse::Ignored)
    );
    assert_eq!(
        s.semantic_action(SemanticAction::SetValue),
        (SliderCommand::FromText, r)
    );
    assert_eq!(
        s.semantic_action(SemanticAction::Increment),
        (SliderCommand::StepUp, r)
    );
    assert_eq!(
        s.semantic_action(SemanticAction::Decrement),
        (SliderCommand::StepDown, r)
    );
    assert_eq!(
        s.semantic_action(SemanticAction::Focus),
        (SliderCommand::Nothing, EventResponse::CaptureFocus)
    );
    assert_eq!(
        s.semantic_action(SemanticAction::Click),
        (SliderCommand::Nothing, EventResponse::Ignored)
    );
}

#[test]
fn slider_disabled_ignores_input() {
    let mut s = SliderInput::new(false);
    assert_eq!(
        s.pointer_pressed(PointerButton::Primary),
        (SliderCommand::Nothing, EventResponse::Ignored)
    );
    assert!(!s.is_dragging());
    assert_eq!(
        s.key_pressed("End"),
        (SliderCommand::Nothing, EventResponse::Ignored)
    );
    assert_eq!(
        s.semantic_action(SemanticAction::Focus),
        (SliderCommand::Nothing, EventResponse::Ignored)
    );
}

#[test]
fn scroll_input_thumb_grab_and_release() {
    let mut v = ScrollInput::new(true);
    assert_eq!(
        v.pointer_pressed(PointerButton::Primary, ScrollZone::VerticalThumb),
        ScrollOutcome::Act(
            ScrollAction::GrabThumb { vertical: true },
            EventResponse::CapturePointer
        )
    );
    assert_eq!(v.thumb_drag(), Some(true));
    assert_eq!(
        v.pointer_moved(ScrollZone::Elsewhere),
        ScrollOutcome::Act(ScrollAction::DragThumb, EventResponse::RequestRepaint)
    );
    assert_eq!(
        v.pointer_released(PointerButton::Primary, ScrollZone::Elsewhere),
        ScrollOutcome::Act(ScrollAction::Nothing, EventResponse::ReleasePointer)
    );
    assert_eq!(v.thumb_drag(), None);
    assert_eq!(
        v.pointer_pressed(PointerButton::Primary, ScrollZone::HorizontalTrack),
        ScrollOutcome::Act(
            ScrollAction::PageTrack { vertical: false },
            EventResponse::CapturePointer
        )
    );
    assert_eq!(v.thumb_drag(), None);
}

#[test]
fn scroll_input_content_first_then_drag() {
    let mut v = ScrollInput::new(true);
    assert_eq!(
        v.pointer_pressed(PointerButton::Primary, ScrollZone::Content),
        ScrollOutcome::Forward
    );
    // The content took the press: its answer stands and no drag starts.
    assert_eq!(
        v.content_answered_press(EventResponse::Handled),
        ScrollOutcome::Act(ScrollAction::Nothing, EventResponse::Handled)
    );
    assert!(!v.is_dragging());
    assert_eq!(
        v.pointer_released(PointerButton::Primary, ScrollZone::Content),
        ScrollOutcome::Forward
    );
    // The content declined: the press drags the content.
    v.pointer_pressed(PointerButton::Primary, ScrollZone::Content);
    assert_eq!(
        v.content_answered_press(EventResponse::Ignored),
        ScrollOutcome::Act(ScrollAction::StartDrag, EventResponse::CapturePointer)
    );
    assert!(v.is_dragging());
    assert_eq!(
        v.pointer_moved(ScrollZone::Content),
        ScrollOutcome::Act(ScrollAction::DragContent, EventResponse::RequestRepaint)
    );
    assert_eq!(
        v.pointer_released(PointerButton::Primary, ScrollZone::Content),
        ScrollOutcome::Act(ScrollAction::EndDrag, EventResponse::ReleasePointer)
    );
    assert!(!v.is_dragging());
    assert_eq!(v.pointer_moved(ScrollZone::Content), ScrollOutcome::Forward);
    assert_eq!(
        v.pointer_moved(ScrollZone::Elsewhere),
        ScrollOutcome::Act(ScrollAction::Nothing, EventResponse::Ignored)
    );
}

#[test]
fn scroll_input_wheel_chains_when_unused() {
    let v = ScrollInput::new(true);
    assert_eq!(v.wheel_answer(true), EventResponse::RequestRepaint);
    assert_eq!(v.wheel_answer(false), EventResponse::Ignored);
    assert_eq!(ScrollInput::new(false).wheel_answer(true), EventResponse::Ignored);
}

#[test]
fn scroll_input_keys_and_actions() {
    let v = ScrollInput::new(true);
    let r = EventResponse::RequestRepaint;
    assert_eq!(
        v.key_pressed("ArrowDown"),
        ScrollOutcome::Act(ScrollAction::Line(ScrollDir::Down), r)
    );
    assert_eq!(
        v.key_pressed("PageUp"),
        ScrollOutcome::Act(ScrollAction::Page { down: false }, r)
    );
    assert_eq!(v.key_pressed("Home"), ScrollOutcome::Act(ScrollAction::ToTop, r));
    assert_eq!(v.key_pressed("End"), ScrollOutcome::Act(ScrollAction::ToBottom, r));
    assert_eq!(
        v.key_pressed("Tab"),
        ScrollOutcome::Act(ScrollAction::Nothing, EventResponse::Ignored)
    );
    assert_eq!(
        v.semantic_action(SemanticAction::ScrollLeft),
        ScrollOutcome::Act(ScrollAction::Line(ScrollDir::Left), r)
    );
    assert_eq!(
        v.semantic_action(SemanticAction::ScrollIntoView),
        ScrollOutcome::Act(ScrollAction::IntoView, r)
    );
    assert_eq!(
        v.semantic_action(SemanticAction::Focus),
        ScrollOutcome::Act(ScrollAction::Nothing, EventResponse::CaptureFocus)
    );
    assert_eq!(v.pointer_crossed(true), ScrollOutcome::Forward);
    assert_eq!(
        v.pointer_crossed(false),
        ScrollOutcome::Act(ScrollAction::Nothing, EventResponse::Ignored)
    );
    let mut off = ScrollInput::new(false);
    assert_eq!(
        off.pointer_pressed(PointerButton::Primary, ScrollZone::Content),
        ScrollOutcome::Act(ScrollAction::Nothing, EventResponse::Ignored)
    );
}

#[test]
fn scroll_bar_requests() {
    assert_eq!(
        bar_request(SemanticAction::ScrollLeft),
        (Some(BarRequest::LineBack), EventResponse::Handled)
    );
    assert_eq!(
        bar_request(SemanticAction::ScrollDown),
        (Some(BarRequest::LineForward), EventResponse::Handled)
    );
    assert_eq!(
        bar_request(SemanticAction::SetScrollOffset),
        (Some(BarRequest::SetOffset), EventResponse::Handled)
    );
    assert_eq!(bar_request(SemanticAction::Click), (None, EventResponse::Ignored));
}

use martensite::access::Role;
use martensite::widgets::rubber_band::{BandCommand, RubberBand};
use martensite::widgets::ruler::RulerInput;
use martensite::widgets::split_view::{SplitCommand, SplitInput};

#[test]
fn split_input_divider_drag_and_reset() {
    let mut s = SplitInput::new(true);
    assert_eq!(
        s.pointer_moved(true),
        (SplitCommand::Nothing, EventResponse::RequestRepaint)
    );
    assert!(s.is_highlighted());
    assert_eq!(
        s.pointer_moved(true),
        (SplitCommand::Nothing, EventResponse::Ignored)
    );
    assert_eq!(
        s.pointer_pressed(PointerButton::Primary, true, 1),
        (SplitCommand::Nothing, EventResponse::CapturePointer)
    );
    assert!(s.is_dragging());
    assert_eq!(
        s.pointer_moved(false),
        (SplitCommand::FromPoint, EventResponse::RequestRepaint)
    );
    // Leaving mid-drag keeps the highlight.
    assert_eq!(s.pointer_leave(), EventResponse::Ignored);
    assert!(s.is_highlighted());
    assert_eq!(s.pointer_released(), EventResponse::Handled);
    assert!(!s.is_dragging());
    assert_eq!(s.pointer_released(), EventResponse::Ignored);
    assert_eq!(
        s.pointer_pressed(PointerButton::Primary, true, 2),
        (SplitCommand::Reset, EventResponse::RequestRepaint)
    );
    assert!(!s.is_dragging());
    assert_eq!(
        s.pointer_pressed(PointerButton::Primary, false, 1),
        (SplitCommand::Nothing, EventResponse::Ignored)
    );
    s.pointer_leave();
    assert!(!s.is_highlighted());
}

#[test]
fn split_input_keys_actions_and_disabled() {
    let s = SplitInput::new(true);
    let h = EventResponse::Handled;
    assert_eq!(s.key_pressed("ArrowLeft"), (SplitCommand::StepBack, h));
    assert_eq!(s.key_pressed("ArrowUp"), (SplitCommand::StepBack, h));
    assert_eq!(s.key_pressed("ArrowRight"), (SplitCommand::StepForward, h));
    assert_eq!(s.key_pressed("ArrowDown"), (SplitCommand::StepForward, h));
    assert_eq!(s.key_pressed("Home"), (SplitCommand::ToStart, h));
    assert_eq!(s.key_pressed("End"), (SplitCommand::ToEnd, h));
    assert_eq!(
        s.key_pressed("PageUp"),
        (SplitCommand::Nothing, EventResponse::Ignored)
    );
    assert_eq!(
        s.semantic_action(SemanticAction::Increment),
        (SplitCommand::StepForward, h)
    );
    assert_eq!(
        s.semantic_action(SemanticAction::Decrement),
        (SplitCommand::StepBack, h)
    );
    let mut off = SplitInput::new(false);
    assert_eq!(
        off.pointer_pressed(PointerButton::Primary, true, 1),
        (SplitCommand::Nothing, EventResponse::Ignored)
    );
    assert_eq!(
        off.key_pressed("Home"),
        (SplitCommand::Nothing, EventResponse::Ignored)
    );
}

#[test]
fn ruler_input_press_drag_release() {
    let mut r = RulerInput::new();
    assert_eq!(
        r.pointer_pressed(PointerButton::Primary, false),
        (false, EventResponse::Ignored)
    );
    assert_eq!(r.pointer_moved(), (false, EventResponse::Ignored));
    assert_eq!(
        r.pointer_pressed(PointerButton::Primary, true),
        (true, EventResponse::CapturePointer)
    );
    assert!(r.is_dragging());
    assert_eq!(r.pointer_moved(), (true, EventResponse::RequestRepaint));
    assert_eq!(
        r.pointer_released(PointerButton::Secondary),
        EventResponse::Ignored
    );
    assert_eq!(
        r.pointer_released(PointerButton::Primary),
        EventResponse::Handled
    );
    assert!(!r.is_dragging());
}

#[test]
fn rubber_band_gesture() {
    let mut b = RubberBand::new();
    assert_eq!(b.accessibility().value.as_deref(), Some("idle"));
    assert_eq!(b.pointer_moved(), (BandCommand::Nothing, EventResponse::Ignored));
    assert_eq!(
        b.pointer_pressed(PointerButton::Primary),
        (BandCommand::Anchor, EventResponse::CaptureFocus)
    );
    assert!(b.is_dragging());
    assert_eq!(b.accessibility().value.as_deref(), Some("selecting"));
    assert_eq!(
        b.pointer_moved(),
        (BandCommand::Stretch, EventResponse::RequestRepaint)
    );
    assert_eq!(b.pointer_leave(), EventResponse::RequestRepaint);
    assert_eq!(
        b.pointer_released(PointerButton::Primary),
        (BandCommand::Finish, EventResponse::RequestRepaint)
    );
    assert!(!b.is_dragging());
    assert_eq!(
        b.pointer_released(PointerButton::Primary),
        (BandCommand::Nothing, EventResponse::Ignored)
    );
    b.pointer_pressed(PointerButton::Primary);
    b.cancel();
    assert!(!b.is_dragging());
    let n = RubberBand::default().label("Pick").accessibility();
    assert_eq!(n.role, Role::Group);
    assert_eq!(n.label.as_deref(), Some("Pick"));
}

#[test]
fn split_view_disabled_inert() {
    let mut s = SplitInput::new(false);
    assert_eq!(
        s.pointer_pressed(PointerButton::Primary, true, 1),
        (SplitCommand::Nothing, EventResponse::Ignored)
    );
    assert!(!s.is_dragging());
    assert_eq!(
        s.pointer_moved(true),
        (SplitCommand::Nothing, EventResponse::Ignored)
    );
    assert_eq!(
        s.key_pressed("ArrowRight"),
        (SplitCommand::Nothing, EventResponse::Ignored)
    );
}

#[test]
fn double_click_resets() {
    let mut s = SplitInput::new(true);
    assert_eq!(
        s.pointer_pressed(PointerButton::Primary, true, 2),
        (SplitCommand::Reset, EventResponse::RequestRepaint)
    );
    assert!(!s.is_dragging());
}

#[test]
fn arrows_step() {
    let s = SplitInput::new(true);
    assert_eq!(
        s.key_pressed("ArrowRight"),
        (SplitCommand::StepForward, EventResponse::Handled)
    );
    assert_eq!(
        s.key_pressed("ArrowLeft"),
        (SplitCommand::StepBack, EventResponse::Handled)
    );
}

#[test]
fn arrow_keys_step() {
    let s = SliderInput::new(true);
    assert_eq!(
        s.key_pressed("ArrowRight"),
        (SliderCommand::StepUp, EventResponse::RequestRepaint)
    );
    assert_eq!(
        s.key_pressed("ArrowLeft"),
        (SliderCommand::StepDown, EventResponse::RequestRepaint)
    );
}

#[test]
fn slider_home_end_jump_to_ends() {
    let s = SliderInput::new(true);
    assert_eq!(
        s.key_pressed("End"),
        (SliderCommand::ToMax, EventResponse::RequestRepaint)
    );
    assert_eq!(
        s.key_pressed("Home"),
        (SliderCommand::ToMin, EventResponse::RequestRepaint)
    );
}

#[test]
fn keyboard_scrolling() {
    let v = ScrollInput::new(true);
    let r = EventResponse::RequestRepaint;
    assert_eq!(
        v.key_pressed("ArrowDown"),
        ScrollOutcome::Act(ScrollAction::Line(ScrollDir::Down), r)
    );
    assert_eq!(
        v.key_pressed("PageDown"),
        ScrollOutcome::Act(ScrollAction::Page { down: true }, r)
    );
    assert_eq!(v.key_pressed("End"), ScrollOutcome::Act(ScrollAction::ToBottom, r));
    assert_eq!(v.key_pressed("Home"), ScrollOutcome::Act(ScrollAction::ToTop, r));
}

#[test]
fn semantic_scroll_actions() {
    let v = ScrollInput::new(true);
    let r = EventResponse::RequestRepaint;
    assert_eq!(
        v.semantic_action(SemanticAction::ScrollDown),
        ScrollOutcome::Act(ScrollAction::Line(ScrollDir::Down), r)
    );
    assert_eq!(
        v.semantic_action(SemanticAction::ScrollUp),
        ScrollOutcome::Act(ScrollAction::Line(ScrollDir::Up), r)
    );
    assert_eq!(
        v.semantic_action(SemanticAction::ScrollRight),
        ScrollOutcome::Act(ScrollAction::Line(ScrollDir::Right), r)
    );
    assert_eq!(
        v.semantic_action(SemanticAction::SetScrollOffset),
        ScrollOutcome::Act(ScrollAction::SetOffset, r)
    );
}
