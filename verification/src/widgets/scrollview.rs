//! `ScrollView` input routing: what each input asks of a scrollable
//! viewport and of its content.
//!
//! Offsets, the content's size and the rubber-band motion are real
//! numbers kept by the caller; this module decides where each input
//! goes. A primary press on a scrollbar thumb grabs it, one on a track
//! pages toward the press; a press inside the viewport goes to the
//! content first and, if the content declines it, starts a drag of the
//! content. A press on an idle view starts at most one drag (of a thumb
//! or of the content), and the release ends it. Wheel deltas the view cannot use are declined so that an
//! enclosing scroll region can take them. A disabled view ignores all
//! input.

use vstd::prelude::*;

use crate::event::{key_of, EventResponse, Key, PointerButton, SemanticAction};

verus! {

/// Where a pointer position falls, scrollbars first.
#[derive(Clone, Copy, Debug, PartialEq, Eq, Structural)]
pub enum ScrollZone {
    /// On the thumb of the vertical scrollbar.
    VerticalThumb,
    /// On the vertical scrollbar, off its thumb.
    VerticalTrack,
    /// On the thumb of the horizontal scrollbar.
    HorizontalThumb,
    /// On the horizontal scrollbar, off its thumb.
    HorizontalTrack,
    /// Inside the content's viewport.
    Content,
    /// Anywhere else.
    Elsewhere,
}

/// A direction of travel.
#[derive(Clone, Copy, Debug, PartialEq, Eq, Structural)]
pub enum ScrollDir {
    Up,
    Down,
    Left,
    Right,
}

/// What an input asks of the view's offset.
#[derive(Clone, Copy, Debug, PartialEq, Eq, Structural)]
pub enum ScrollAction {
    /// Leave the offset alone.
    Nothing,
    /// Remember where the thumb of this scrollbar was grabbed.
    GrabThumb { vertical: bool },
    /// Page this scrollbar toward the press point.
    PageTrack { vertical: bool },
    /// Remember the press point to drag the content from.
    StartDrag,
    /// Move the grabbed thumb to the pointer.
    DragThumb,
    /// Scroll by the pointer's movement since the last point.
    DragContent,
    /// Let the dragged content spring back into range.
    EndDrag,
    /// Scroll one line.
    Line(ScrollDir),
    /// Scroll nine tenths of the viewport down (or up).
    Page { down: bool },
    /// Go to the top, keeping the horizontal offset.
    ToTop,
    /// Go to the bottom, keeping the horizontal offset.
    ToBottom,
    /// Go to the offset the action carries.
    SetOffset,
    /// Bring the point the action carries into view.
    ToPoint,
    /// Bring the first clipped descendant into view.
    IntoView,
}

/// Where an input goes.
#[derive(Clone, Copy, Debug, PartialEq, Eq, Structural)]
pub enum ScrollOutcome {
    /// Do the action, then answer with the response.
    Act(ScrollAction, EventResponse),
    /// Hand the event to the content.
    Forward,
}

/// The input state of a scroll view.
pub struct ScrollInputView {
    pub enabled: bool,
    /// The scrollbar whose thumb is grabbed (`Some(true)`: vertical).
    pub thumb_drag: Option<bool>,
    /// The content is being dragged.
    pub dragging: bool,
}

impl ScrollInputView {
    /// At most one drag is in flight.
    pub open spec fn wf(self) -> bool {
        !(self.thumb_drag is Some && self.dragging)
    }
}

/// The input state of a scroll view.
#[derive(Debug)]
pub struct ScrollInput {
    /// Whether input reaches the view.
    pub enabled: bool,
    thumb_drag: Option<bool>,
    dragging: bool,
}

impl View for ScrollInput {
    type V = ScrollInputView;

    closed spec fn view(&self) -> ScrollInputView {
        ScrollInputView {
            enabled: self.enabled,
            thumb_drag: self.thumb_drag,
            dragging: self.dragging,
        }
    }
}

/// What a key asks of the view.
pub open spec fn key_action(k: Key) -> ScrollAction {
    match k {
        Key::ArrowDown => ScrollAction::Line(ScrollDir::Down),
        Key::ArrowUp => ScrollAction::Line(ScrollDir::Up),
        Key::ArrowRight => ScrollAction::Line(ScrollDir::Right),
        Key::ArrowLeft => ScrollAction::Line(ScrollDir::Left),
        Key::PageDown => ScrollAction::Page { down: true },
        Key::PageUp => ScrollAction::Page { down: false },
        Key::Home => ScrollAction::ToTop,
        Key::End => ScrollAction::ToBottom,
        _ => ScrollAction::Nothing,
    }
}

/// What an accessibility action asks of the view, and the answer.
pub open spec fn action_outcome(a: SemanticAction) -> ScrollOutcome {
    match a {
        SemanticAction::ScrollUp => ScrollOutcome::Act(
            ScrollAction::Line(ScrollDir::Up),
            EventResponse::RequestRepaint,
        ),
        SemanticAction::ScrollDown => ScrollOutcome::Act(
            ScrollAction::Line(ScrollDir::Down),
            EventResponse::RequestRepaint,
        ),
        SemanticAction::ScrollLeft => ScrollOutcome::Act(
            ScrollAction::Line(ScrollDir::Left),
            EventResponse::RequestRepaint,
        ),
        SemanticAction::ScrollRight => ScrollOutcome::Act(
            ScrollAction::Line(ScrollDir::Right),
            EventResponse::RequestRepaint,
        ),
        SemanticAction::SetScrollOffset => ScrollOutcome::Act(
            ScrollAction::SetOffset,
            EventResponse::RequestRepaint,
        ),
        SemanticAction::ScrollToPoint => ScrollOutcome::Act(
            ScrollAction::ToPoint,
            EventResponse::RequestRepaint,
        ),
        SemanticAction::ScrollIntoView => ScrollOutcome::Act(
            ScrollAction::IntoView,
            EventResponse::RequestRepaint,
        ),
        SemanticAction::Focus => ScrollOutcome::Act(
            ScrollAction::Nothing,
            EventResponse::CaptureFocus,
        ),
        _ => ScrollOutcome::Act(ScrollAction::Nothing, EventResponse::Ignored),
    }
}

/// Nothing to do, nothing to say.
pub open spec fn ignored() -> ScrollOutcome {
    ScrollOutcome::Act(ScrollAction::Nothing, EventResponse::Ignored)
}

/// A primary press: the state after it and where it goes.
pub open spec fn press_step(v: ScrollInputView, zone: ScrollZone) -> (ScrollInputView, ScrollOutcome) {
    match zone {
        ScrollZone::VerticalThumb => (
            ScrollInputView { thumb_drag: Some(true), ..v },
            ScrollOutcome::Act(
                ScrollAction::GrabThumb { vertical: true },
                EventResponse::CapturePointer,
            ),
        ),
        ScrollZone::HorizontalThumb => (
            ScrollInputView { thumb_drag: Some(false), ..v },
            ScrollOutcome::Act(
                ScrollAction::GrabThumb { vertical: false },
                EventResponse::CapturePointer,
            ),
        ),
        ScrollZone::VerticalTrack => (
            v,
            ScrollOutcome::Act(
                ScrollAction::PageTrack { vertical: true },
                EventResponse::CapturePointer,
            ),
        ),
        ScrollZone::HorizontalTrack => (
            v,
            ScrollOutcome::Act(
                ScrollAction::PageTrack { vertical: false },
                EventResponse::CapturePointer,
            ),
        ),
        ScrollZone::Content => (v, ScrollOutcome::Forward),
        ScrollZone::Elsewhere => (
            ScrollInputView { dragging: true, ..v },
            ScrollOutcome::Act(ScrollAction::StartDrag, EventResponse::CapturePointer),
        ),
    }
}

/// A primary release: the state after it and where it goes.
pub open spec fn release_step(v: ScrollInputView, zone: ScrollZone) -> (
    ScrollInputView,
    ScrollOutcome,
) {
    if v.thumb_drag is Some {
        (
            ScrollInputView { thumb_drag: None, ..v },
            ScrollOutcome::Act(ScrollAction::Nothing, EventResponse::ReleasePointer),
        )
    } else if v.dragging {
        (
            ScrollInputView { dragging: false, ..v },
            ScrollOutcome::Act(ScrollAction::EndDrag, EventResponse::ReleasePointer),
        )
    } else if zone == ScrollZone::Content {
        (v, ScrollOutcome::Forward)
    } else {
        (v, ignored())
    }
}

impl ScrollInput {
    /// An idle scroll view input, enabled or not.
    pub fn new(enabled: bool) -> (s: ScrollInput)
        ensures
            s@ == (ScrollInputView { enabled, thumb_drag: None, dragging: false }),
            s@.wf(),
    {
        ScrollInput { enabled, thumb_drag: None, dragging: false }
    }

    /// The scrollbar whose thumb is grabbed (`Some(true)`: vertical).
    pub fn thumb_drag(&self) -> (r: Option<bool>)
        ensures
            r == self@.thumb_drag,
    {
        self.thumb_drag
    }

    /// Whether the content is being dragged.
    pub fn is_dragging(&self) -> (r: bool)
        ensures
            r == self@.dragging,
    {
        self.dragging
    }

    /// A pointer press in `zone`. A primary press on a thumb grabs it;
    /// on a track it pages; inside the viewport it goes to the content
    /// first (hand its answer to [`ScrollInput::content_answered_press`]);
    /// elsewhere it starts a drag. Every primary press on the view
    /// grabs the pointer unless the content answers otherwise.
    pub fn pointer_pressed(&mut self, button: PointerButton, zone: ScrollZone) -> (r: ScrollOutcome)
        ensures
            old(self)@.enabled && button == PointerButton::Primary ==> (final(self)@, r)
                == press_step(old(self)@, zone),
            !(old(self)@.enabled && button == PointerButton::Primary) ==> r == ignored()
                && final(self)@ == old(self)@,
            // A primary press on a thumb grabs that thumb's own bar.
            old(self)@.enabled && button == PointerButton::Primary && zone
                == ScrollZone::VerticalThumb ==> r == ScrollOutcome::Act(
                ScrollAction::GrabThumb { vertical: true },
                EventResponse::CapturePointer,
            ) && final(self)@.thumb_drag == Some(true),
            old(self)@.enabled && button == PointerButton::Primary && zone
                == ScrollZone::HorizontalThumb ==> r == ScrollOutcome::Act(
                ScrollAction::GrabThumb { vertical: false },
                EventResponse::CapturePointer,
            ) && final(self)@.thumb_drag == Some(false),
            // A track press pages that track's own bar and grabs nothing.
            old(self)@.enabled && button == PointerButton::Primary && zone
                == ScrollZone::VerticalTrack ==> r == ScrollOutcome::Act(
                ScrollAction::PageTrack { vertical: true },
                EventResponse::CapturePointer,
            ) && final(self)@ == old(self)@,
            old(self)@.enabled && button == PointerButton::Primary && zone
                == ScrollZone::HorizontalTrack ==> r == ScrollOutcome::Act(
                ScrollAction::PageTrack { vertical: false },
                EventResponse::CapturePointer,
            ) && final(self)@ == old(self)@,
    {
        if !self.enabled || button != PointerButton::Primary {
            return ScrollOutcome::Act(ScrollAction::Nothing, EventResponse::Ignored);
        }
        match zone {
            ScrollZone::VerticalThumb => {
                self.thumb_drag = Some(true);
                ScrollOutcome::Act(
                    ScrollAction::GrabThumb { vertical: true },
                    EventResponse::CapturePointer,
                )
            },
            ScrollZone::HorizontalThumb => {
                self.thumb_drag = Some(false);
                ScrollOutcome::Act(
                    ScrollAction::GrabThumb { vertical: false },
                    EventResponse::CapturePointer,
                )
            },
            ScrollZone::VerticalTrack => ScrollOutcome::Act(
                ScrollAction::PageTrack { vertical: true },
                EventResponse::CapturePointer,
            ),
            ScrollZone::HorizontalTrack => ScrollOutcome::Act(
                ScrollAction::PageTrack { vertical: false },
                EventResponse::CapturePointer,
            ),
            ScrollZone::Content => ScrollOutcome::Forward,
            ScrollZone::Elsewhere => {
                self.dragging = true;
                ScrollOutcome::Act(ScrollAction::StartDrag, EventResponse::CapturePointer)
            },
        }
    }

    /// The content's answer to a press it was handed: kept when it took
    /// the press, else the press starts a drag of the content.
    pub fn content_answered_press(&mut self, answer: EventResponse) -> (r: ScrollOutcome)
        ensures
            answer != EventResponse::Ignored ==> r == ScrollOutcome::Act(
                ScrollAction::Nothing,
                answer,
            ) && final(self)@ == old(self)@,
            answer == EventResponse::Ignored ==> r == ScrollOutcome::Act(
                ScrollAction::StartDrag,
                EventResponse::CapturePointer,
            ) && final(self)@ == (ScrollInputView { dragging: true, ..old(self)@ }),
    {
        if answer != EventResponse::Ignored {
            ScrollOutcome::Act(ScrollAction::Nothing, answer)
        } else {
            self.dragging = true;
            ScrollOutcome::Act(ScrollAction::StartDrag, EventResponse::CapturePointer)
        }
    }

    /// The pointer moved to `zone`: a grabbed thumb follows it, else a
    /// dragged content follows it, else a move inside the viewport goes
    /// to the content (hover).
    pub fn pointer_moved(&self, zone: ScrollZone) -> (r: ScrollOutcome)
        ensures
            r == if !self@.enabled {
                ignored()
            } else if self@.thumb_drag is Some {
                ScrollOutcome::Act(ScrollAction::DragThumb, EventResponse::RequestRepaint)
            } else if self@.dragging {
                ScrollOutcome::Act(ScrollAction::DragContent, EventResponse::RequestRepaint)
            } else if zone == ScrollZone::Content {
                ScrollOutcome::Forward
            } else {
                ignored()
            },
    {
        if !self.enabled {
            return ScrollOutcome::Act(ScrollAction::Nothing, EventResponse::Ignored);
        }
        if self.thumb_drag.is_some() {
            ScrollOutcome::Act(ScrollAction::DragThumb, EventResponse::RequestRepaint)
        } else if self.dragging {
            ScrollOutcome::Act(ScrollAction::DragContent, EventResponse::RequestRepaint)
        } else if zone == ScrollZone::Content {
            ScrollOutcome::Forward
        } else {
            ScrollOutcome::Act(ScrollAction::Nothing, EventResponse::Ignored)
        }
    }

    /// The pointer entered or left the view: the content hears of it
    /// once it has been laid out.
    pub fn pointer_crossed(&self, content_laid_out: bool) -> (r: ScrollOutcome)
        ensures
            r == if self@.enabled && content_laid_out {
                ScrollOutcome::Forward
            } else {
                ignored()
            },
    {
        if self.enabled && content_laid_out {
            ScrollOutcome::Forward
        } else {
            ScrollOutcome::Act(ScrollAction::Nothing, EventResponse::Ignored)
        }
    }

    /// A pointer release in `zone`. A primary release ends a thumb grab
    /// or a content drag (letting the content spring back) and frees
    /// the pointer; with no drag in flight, a release inside the
    /// viewport goes to the content.
    pub fn pointer_released(&mut self, button: PointerButton, zone: ScrollZone) -> (r: ScrollOutcome)
        ensures
            old(self)@.enabled && button == PointerButton::Primary ==> (final(self)@, r)
                == release_step(old(self)@, zone),
            !(old(self)@.enabled && button == PointerButton::Primary) ==> r == ignored()
                && final(self)@ == old(self)@,
    {
        if !self.enabled || button != PointerButton::Primary {
            return ScrollOutcome::Act(ScrollAction::Nothing, EventResponse::Ignored);
        }
        if self.thumb_drag.is_some() {
            self.thumb_drag = None;
            ScrollOutcome::Act(ScrollAction::Nothing, EventResponse::ReleasePointer)
        } else if self.dragging {
            self.dragging = false;
            ScrollOutcome::Act(ScrollAction::EndDrag, EventResponse::ReleasePointer)
        } else if zone == ScrollZone::Content {
            ScrollOutcome::Forward
        } else {
            ScrollOutcome::Act(ScrollAction::Nothing, EventResponse::Ignored)
        }
    }

    /// The answer to a wheel turn once the view scrolled by it: a delta
    /// the view could not use at all is declined so that an enclosing
    /// scroll region can take it.
    pub fn wheel_answer(&self, moved: bool) -> (r: EventResponse)
        ensures
            r == if self@.enabled && moved {
                EventResponse::RequestRepaint
            } else {
                EventResponse::Ignored
            },
    {
        if self.enabled && moved {
            EventResponse::RequestRepaint
        } else {
            EventResponse::Ignored
        }
    }

    /// A key press, by key name: arrows scroll a line, page keys nine
    /// tenths of the viewport, `Home`/`End` go to the top and bottom.
    pub fn key_pressed(&self, key: &str) -> (r: ScrollOutcome)
        ensures
            self@.enabled && key_action(key_of(key@)) != ScrollAction::Nothing ==> r
                == ScrollOutcome::Act(key_action(key_of(key@)), EventResponse::RequestRepaint),
            !(self@.enabled && key_action(key_of(key@)) != ScrollAction::Nothing) ==> r
                == ignored(),
            // Each key scrolls in its own direction.
            self@.enabled && key_of(key@) == Key::ArrowUp ==> r == ScrollOutcome::Act(
                ScrollAction::Line(ScrollDir::Up),
                EventResponse::RequestRepaint,
            ),
            self@.enabled && key_of(key@) == Key::ArrowDown ==> r == ScrollOutcome::Act(
                ScrollAction::Line(ScrollDir::Down),
                EventResponse::RequestRepaint,
            ),
            self@.enabled && key_of(key@) == Key::ArrowLeft ==> r == ScrollOutcome::Act(
                ScrollAction::Line(ScrollDir::Left),
                EventResponse::RequestRepaint,
            ),
            self@.enabled && key_of(key@) == Key::ArrowRight ==> r == ScrollOutcome::Act(
                ScrollAction::Line(ScrollDir::Right),
                EventResponse::RequestRepaint,
            ),
            self@.enabled && key_of(key@) == Key::PageDown ==> r == ScrollOutcome::Act(
                ScrollAction::Page { down: true },
                EventResponse::RequestRepaint,
            ),
            self@.enabled && key_of(key@) == Key::PageUp ==> r == ScrollOutcome::Act(
                ScrollAction::Page { down: false },
                EventResponse::RequestRepaint,
            ),
            self@.enabled && key_of(key@) == Key::Home ==> r == ScrollOutcome::Act(
                ScrollAction::ToTop,
                EventResponse::RequestRepaint,
            ),
            self@.enabled && key_of(key@) == Key::End ==> r == ScrollOutcome::Act(
                ScrollAction::ToBottom,
                EventResponse::RequestRepaint,
            ),
    {
        if !self.enabled {
            return ScrollOutcome::Act(ScrollAction::Nothing, EventResponse::Ignored);
        }
        let a = match Key::from_name(key) {
            Key::ArrowDown => ScrollAction::Line(ScrollDir::Down),
            Key::ArrowUp => ScrollAction::Line(ScrollDir::Up),
            Key::ArrowRight => ScrollAction::Line(ScrollDir::Right),
            Key::ArrowLeft => ScrollAction::Line(ScrollDir::Left),
            Key::PageDown => ScrollAction::Page { down: true },
            Key::PageUp => ScrollAction::Page { down: false },
            Key::Home => ScrollAction::ToTop,
            Key::End => ScrollAction::ToBottom,
            _ => ScrollAction::Nothing,
        };
        if a == ScrollAction::Nothing {
            ScrollOutcome::Act(a, EventResponse::Ignored)
        } else {
            ScrollOutcome::Act(a, EventResponse::RequestRepaint)
        }
    }

    /// An accessibility action on the view.
    pub fn semantic_action(&self, action: SemanticAction) -> (r: ScrollOutcome)
        ensures
            self@.enabled ==> r == action_outcome(action),
            // Each scroll action scrolls its own way.
            self@.enabled && action == SemanticAction::ScrollUp ==> r == ScrollOutcome::Act(
                ScrollAction::Line(ScrollDir::Up),
                EventResponse::RequestRepaint,
            ),
            self@.enabled && action == SemanticAction::ScrollDown ==> r == ScrollOutcome::Act(
                ScrollAction::Line(ScrollDir::Down),
                EventResponse::RequestRepaint,
            ),
            self@.enabled && action == SemanticAction::ScrollLeft ==> r == ScrollOutcome::Act(
                ScrollAction::Line(ScrollDir::Left),
                EventResponse::RequestRepaint,
            ),
            self@.enabled && action == SemanticAction::ScrollRight ==> r == ScrollOutcome::Act(
                ScrollAction::Line(ScrollDir::Right),
                EventResponse::RequestRepaint,
            ),
            self@.enabled && action == SemanticAction::SetScrollOffset ==> r == ScrollOutcome::Act(
                ScrollAction::SetOffset,
                EventResponse::RequestRepaint,
            ),
            self@.enabled && action == SemanticAction::ScrollToPoint ==> r == ScrollOutcome::Act(
                ScrollAction::ToPoint,
                EventResponse::RequestRepaint,
            ),
            self@.enabled && action == SemanticAction::ScrollIntoView ==> r == ScrollOutcome::Act(
                ScrollAction::IntoView,
                EventResponse::RequestRepaint,
            ),
            !self@.enabled ==> r == ignored(),
    {
        if !self.enabled {
            return ScrollOutcome::Act(ScrollAction::Nothing, EventResponse::Ignored);
        }
        match action {
            SemanticAction::ScrollUp => ScrollOutcome::Act(
                ScrollAction::Line(ScrollDir::Up),
                EventResponse::RequestRepaint,
            ),
            SemanticAction::ScrollDown => ScrollOutcome::Act(
                ScrollAction::Line(ScrollDir::Down),
                EventResponse::RequestRepaint,
            ),
            SemanticAction::ScrollLeft => ScrollOutcome::Act(
                ScrollAction::Line(ScrollDir::Left),
                EventResponse::RequestRepaint,
            ),
            SemanticAction::ScrollRight => ScrollOutcome::Act(
                ScrollAction::Line(ScrollDir::Right),
                EventResponse::RequestRepaint,
            ),
            SemanticAction::SetScrollOffset => ScrollOutcome::Act(
                ScrollAction::SetOffset,
                EventResponse::RequestRepaint,
            ),
            SemanticAction::ScrollToPoint => ScrollOutcome::Act(
                ScrollAction::ToPoint,
                EventResponse::RequestRepaint,
            ),
            SemanticAction::ScrollIntoView => ScrollOutcome::Act(
                ScrollAction::IntoView,
                EventResponse::RequestRepaint,
            ),
            SemanticAction::Focus => ScrollOutcome::Act(
                ScrollAction::Nothing,
                EventResponse::CaptureFocus,
            ),
            _ => ScrollOutcome::Act(ScrollAction::Nothing, EventResponse::Ignored),
        }
    }
}

/// A scroll request a scrollbar parks for its view.
#[derive(Clone, Copy, Debug, PartialEq, Eq, Structural)]
pub enum BarRequest {
    /// One line back along the bar's axis (up or left).
    LineBack,
    /// One line forward along the bar's axis (down or right).
    LineForward,
    /// Go to the offset the action carries.
    SetOffset,
}

/// What an accessibility action on a scrollbar parks for its view:
/// up and left go back along the bar's own axis, down and right go
/// forward, and a set-offset goes to the offset; the bar answers that
/// it handled those and ignores everything else.
pub fn bar_request(action: SemanticAction) -> (r: (Option<BarRequest>, EventResponse))
    ensures
        r == match action {
            SemanticAction::ScrollUp | SemanticAction::ScrollLeft => (
                Some(BarRequest::LineBack),
                EventResponse::Handled,
            ),
            SemanticAction::ScrollDown | SemanticAction::ScrollRight => (
                Some(BarRequest::LineForward),
                EventResponse::Handled,
            ),
            SemanticAction::SetScrollOffset => (Some(BarRequest::SetOffset), EventResponse::Handled),
            _ => (None, EventResponse::Ignored),
        },
{
    match action {
        SemanticAction::ScrollUp | SemanticAction::ScrollLeft => (
            Some(BarRequest::LineBack),
            EventResponse::Handled,
        ),
        SemanticAction::ScrollDown | SemanticAction::ScrollRight => (
            Some(BarRequest::LineForward),
            EventResponse::Handled,
        ),
        SemanticAction::SetScrollOffset => (Some(BarRequest::SetOffset), EventResponse::Handled),
        _ => (None, EventResponse::Ignored),
    }
}

/// Every grab ends with the release: from any state with at most one
/// drag, a primary release leaves no drag in flight, and it frees the
/// pointer exactly when a drag was in flight.
pub proof fn lemma_release_ends_drags(v: ScrollInputView, zone: ScrollZone)
    requires
        v.wf(),
    ensures
        release_step(v, zone).0.thumb_drag is None,
        !release_step(v, zone).0.dragging,
        (release_step(v, zone).1 == ScrollOutcome::Act(
            ScrollAction::Nothing,
            EventResponse::ReleasePointer,
        ) || release_step(v, zone).1 == ScrollOutcome::Act(
            ScrollAction::EndDrag,
            EventResponse::ReleasePointer,
        )) <==> (v.thumb_drag is Some || v.dragging),
{
}

/// A press from an idle view starts at most one drag.
pub proof fn lemma_press_starts_one_drag(v: ScrollInputView, zone: ScrollZone)
    requires
        v.thumb_drag is None,
        !v.dragging,
    ensures
        press_step(v, zone).0.wf(),
{
}


/// Keys scroll in their own directions: up and down arrows move
/// vertically, left and right arrows horizontally, each the way it
/// points; the page keys page down and up; `Home` and `End` go to the
/// top and the bottom; every other key asks for nothing.
pub proof fn lemma_keys_scroll_their_way(k: Key)
    ensures
        k == Key::ArrowUp <==> key_action(k) == ScrollAction::Line(ScrollDir::Up),
        k == Key::ArrowDown <==> key_action(k) == ScrollAction::Line(ScrollDir::Down),
        k == Key::ArrowLeft <==> key_action(k) == ScrollAction::Line(ScrollDir::Left),
        k == Key::ArrowRight <==> key_action(k) == ScrollAction::Line(ScrollDir::Right),
        k == Key::PageDown <==> key_action(k) == (ScrollAction::Page { down: true }),
        k == Key::PageUp <==> key_action(k) == (ScrollAction::Page { down: false }),
        k == Key::Home <==> key_action(k) == ScrollAction::ToTop,
        k == Key::End <==> key_action(k) == ScrollAction::ToBottom,
{
}

/// A primary press on a scrollbar acts on that bar only: a thumb press
/// grabs the pressed bar's thumb (vertical exactly for the vertical
/// thumb), a track press pages the pressed bar and grabs nothing, and
/// no other zone grabs a thumb.
pub proof fn lemma_press_acts_on_its_bar(v: ScrollInputView, zone: ScrollZone)
    ensures
        zone == ScrollZone::VerticalThumb ==> press_step(v, zone).0.thumb_drag == Some(true)
            && press_step(v, zone).1 == ScrollOutcome::Act(
            ScrollAction::GrabThumb { vertical: true },
            EventResponse::CapturePointer,
        ),
        zone == ScrollZone::HorizontalThumb ==> press_step(v, zone).0.thumb_drag == Some(false)
            && press_step(v, zone).1 == ScrollOutcome::Act(
            ScrollAction::GrabThumb { vertical: false },
            EventResponse::CapturePointer,
        ),
        zone == ScrollZone::VerticalTrack ==> press_step(v, zone) == (
            v,
            ScrollOutcome::Act(ScrollAction::PageTrack { vertical: true }, EventResponse::CapturePointer),
        ),
        zone == ScrollZone::HorizontalTrack ==> press_step(v, zone) == (
            v,
            ScrollOutcome::Act(ScrollAction::PageTrack { vertical: false }, EventResponse::CapturePointer),
        ),
        zone != ScrollZone::VerticalThumb && zone != ScrollZone::HorizontalThumb ==> press_step(
            v,
            zone,
        ).0.thumb_drag == v.thumb_drag,
{
}

} // verus!
