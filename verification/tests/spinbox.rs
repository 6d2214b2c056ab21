use martensite::event::{EventResponse, PointerButton, SemanticAction};
use martensite::widgets::spinbox::{
    SpinAnswer, SpinButton, SpinCommand, SpinInput, SpinOutcome, SpinZone,
};

fn repaint(command: SpinCommand) -> SpinOutcome {
    SpinOutcome {
        command,
        forward: false,
        answer: SpinAnswer::Say(EventResponse::RequestRepaint),
    }
}

fn say(r: EventResponse) -> SpinOutcome {
    SpinOutcome {
        command: SpinCommand::Nothing,
        forward: false,
        answer: SpinAnswer::Say(r),
    }
}

fn to_field(command: SpinCommand) -> SpinOutcome {
    SpinOutcome {
        command,
        forward: true,
        answer: SpinAnswer::Field,
    }
}

#[test]
fn button_press_steps_and_captures() {
    let mut sb = SpinInput::new(true);
    assert_eq!(
        sb.pointer_pressed(PointerButton::Primary, SpinZone::Up),
        SpinOutcome {
            command: SpinCommand::StepUp,
            forward: false,
            answer: SpinAnswer::Say(EventResponse::CapturePointer),
        }
    );
    assert!(sb.is_pressed());
    assert_eq!(
        sb.pointer_released(PointerButton::Primary),
        say(EventResponse::ReleasePointer)
    );
    assert!(!sb.is_pressed());
    assert_eq!(
        sb.pointer_pressed(PointerButton::Primary, SpinZone::Down).command,
        SpinCommand::StepDown
    );
    assert_eq!(sb.pressed(), Some(SpinButton::Down));
}

#[test]
fn hold_repeat_fires_after_delay() {
    let mut sb = SpinInput::new(true);
    sb.pointer_pressed(PointerButton::Primary, SpinZone::Up);
    // Before the delay no repeat fires.
    assert_eq!(sb.tick(100_000_000), 0);
    // Crossing the delay fires the repeats due in the surplus.
    assert_eq!(sb.tick(400_000_000), 5);
    assert_eq!(sb.tick(70_000_000), 1);
    sb.pointer_released(PointerButton::Primary);
    assert_eq!(sb.tick(1_000_000_000), 0);
}

#[test]
fn scroll_steps_by_sign() {
    let sb = SpinInput::new(true);
    assert_eq!(sb.wheel(1), repaint(SpinCommand::StepUp));
    assert_eq!(sb.wheel(-1), repaint(SpinCommand::StepDown));
    assert_eq!(sb.wheel(0), say(EventResponse::Ignored));
}

#[test]
fn arrow_and_page_keys_step() {
    let sb = SpinInput::new(true);
    assert_eq!(sb.key_pressed("ArrowUp"), repaint(SpinCommand::StepUp));
    assert_eq!(sb.key_pressed("ArrowDown"), repaint(SpinCommand::StepDown));
    assert_eq!(sb.key_pressed("PageUp"), repaint(SpinCommand::PageUp));
    assert_eq!(sb.key_pressed("PageDown"), repaint(SpinCommand::PageDown));
}

#[test]
fn spinbox_home_end_jump_to_ends() {
    let sb = SpinInput::new(true);
    assert_eq!(sb.key_pressed("Home"), repaint(SpinCommand::ToMin));
    assert_eq!(sb.key_pressed("End"), repaint(SpinCommand::ToMax));
}

#[test]
fn typed_text_commits_on_enter() {
    let mut sb = SpinInput::new(true);
    assert_eq!(sb.focus_changed(true), to_field(SpinCommand::Nothing));
    assert!(sb.is_editing());
    // Typing goes to the field; Enter commits it.
    assert_eq!(sb.key_pressed("SelectAll"), to_field(SpinCommand::Nothing));
    assert_eq!(sb.key_pressed("Enter"), repaint(SpinCommand::Commit));
}

#[test]
fn typed_text_commits_on_blur() {
    let mut sb = SpinInput::new(true);
    sb.focus_changed(true);
    sb.pointer_pressed(PointerButton::Primary, SpinZone::Up);
    assert_eq!(sb.focus_changed(false), to_field(SpinCommand::Commit));
    assert!(!sb.is_editing());
    assert!(!sb.is_pressed());
}

#[test]
fn semantic_actions_step_and_set() {
    let sb = SpinInput::new(true);
    assert_eq!(
        sb.semantic_action(SemanticAction::SetValue),
        repaint(SpinCommand::FromText)
    );
    assert_eq!(
        sb.semantic_action(SemanticAction::Increment),
        repaint(SpinCommand::StepUp)
    );
    assert_eq!(
        sb.semantic_action(SemanticAction::Decrement),
        repaint(SpinCommand::StepDown)
    );
    assert_eq!(
        sb.semantic_action(SemanticAction::Focus),
        say(EventResponse::CaptureFocus)
    );
    assert_eq!(
        sb.semantic_action(SemanticAction::Click),
        say(EventResponse::Ignored)
    );
}

#[test]
fn spinbox_disabled_ignores_input() {
    let mut sb = SpinInput::new(false);
    assert_eq!(
        sb.pointer_pressed(PointerButton::Primary, SpinZone::Up),
        say(EventResponse::Ignored)
    );
    assert!(!sb.is_pressed());
    assert_eq!(sb.key_pressed("ArrowUp"), say(EventResponse::Ignored));
    assert_eq!(sb.wheel(1), say(EventResponse::Ignored));
}

#[test]
fn spinbox_hover_and_field_routing() {
    let mut sb = SpinInput::new(true);
    assert_eq!(
        sb.pointer_moved(SpinZone::Up),
        SpinOutcome {
            command: SpinCommand::Nothing,
            forward: true,
            answer: SpinAnswer::Say(EventResponse::RequestRepaint),
        }
    );
    assert_eq!(sb.hover(), Some(SpinButton::Up));
    assert_eq!(sb.pointer_moved(SpinZone::Up), to_field(SpinCommand::Nothing));
    assert_eq!(sb.pointer_leave(), say(EventResponse::RequestRepaint));
    assert_eq!(sb.pointer_leave(), say(EventResponse::Ignored));
    assert_eq!(
        sb.pointer_pressed(PointerButton::Primary, SpinZone::Field),
        to_field(SpinCommand::Nothing)
    );
    assert_eq!(
        sb.pointer_pressed(PointerButton::Primary, SpinZone::Elsewhere),
        say(EventResponse::Ignored)
    );
    assert_eq!(
        sb.pointer_released(PointerButton::Primary),
        to_field(SpinCommand::Nothing)
    );
    // While a button is held, moves do nothing.
    sb.pointer_pressed(PointerButton::Primary, SpinZone::Down);
    assert_eq!(sb.pointer_moved(SpinZone::Field), say(EventResponse::Ignored));
}
