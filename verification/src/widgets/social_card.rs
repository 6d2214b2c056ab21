//! `SocialCard`: a feed post — avatar, author, handle, timestamp, body
//! and an action bar. Releasing the pointer on an action parks its
//! index for [`SocialCard::take_action`]; the first action (the heart)
//! also toggles the liked state.

use vstd::prelude::*;

use crate::access::{AccessNode, Role};
use crate::event::{EventResponse, PointerButton};
use crate::text::{owned, push_str};

verus! {

/// Default avatar swatch.
pub const AVATAR: [u8; 4] = [120, 140, 180, 255];

/// A post action shown in the bottom bar.
#[derive(Debug)]
pub struct CardAction {
    /// Glyph or short label.
    pub glyph: String,
    /// Display count (0 hides the number).
    pub count: u32,
}

impl CardAction {
    /// An action with a glyph and a count.
    pub fn new(glyph: &str, count: u32) -> (a: CardAction)
        ensures
            a.glyph@ == glyph@,
            a.count == count,
    {
        CardAction { glyph: owned(glyph), count }
    }
}

/// An action as plain values: glyph and count.
pub open spec fn action_view(a: CardAction) -> (Seq<char>, u32) {
    (a.glyph@, a.count)
}

/// The state of a card.
pub struct SocialCardView {
    pub label: Seq<char>,
    pub actions: Seq<(Seq<char>, u32)>,
    pub author: Seq<char>,
    pub handle: Seq<char>,
    pub timestamp: Seq<char>,
    pub body: Seq<char>,
    pub liked: bool,
    pub avatar: [u8; 4],
    pub taken: Option<usize>,
    pub hovered: Option<usize>,
}

/// A social post card.
#[derive(Debug)]
pub struct SocialCard {
    /// Accessibility label.
    pub label: String,
    /// Action bar contents.
    pub actions: Vec<CardAction>,
    author: String,
    handle: String,
    timestamp: String,
    body: String,
    liked: bool,
    avatar: [u8; 4],
    taken: Option<usize>,
    hovered: Option<usize>,
}

impl View for SocialCard {
    type V = SocialCardView;

    closed spec fn view(&self) -> SocialCardView {
        SocialCardView {
            label: self.label@,
            actions: self.actions@.map_values(|a: CardAction| action_view(a)),
            author: self.author@,
            handle: self.handle@,
            timestamp: self.timestamp@,
            body: self.body@,
            liked: self.liked,
            avatar: self.avatar,
            taken: self.taken,
            hovered: self.hovered,
        }
    }
}

impl SocialCard {
    /// A post by `author` (`handle`, `timestamp`) saying `body`, with a
    /// heart, a reply and a share action, all at zero.
    pub fn new(author: &str, handle: &str, timestamp: &str, body: &str) -> (c: SocialCard)
        ensures
            c@ == (SocialCardView {
                label: "Post"@,
                actions: seq![("♥"@, 0u32), ("💬"@, 0u32), ("↗"@, 0u32)],
                author: author@,
                handle: handle@,
                timestamp: timestamp@,
                body: body@,
                liked: false,
                avatar: AVATAR,
                taken: None,
                hovered: None,
            }),
    {
        let mut actions: Vec<CardAction> = Vec::new();
        actions.push(CardAction::new("♥", 0));
        actions.push(CardAction::new("💬", 0));
        actions.push(CardAction::new("↗", 0));
        let c = SocialCard {
            label: owned("Post"),
            actions,
            author: owned(author),
            handle: owned(handle),
            timestamp: owned(timestamp),
            body: owned(body),
            liked: false,
            avatar: AVATAR,
            taken: None,
            hovered: None,
        };
        assert(c@.actions =~= seq![("♥"@, 0u32), ("💬"@, 0u32), ("↗"@, 0u32)]);
        c
    }

    /// Sets the avatar swatch color.
    pub fn avatar_color(self, color: [u8; 4]) -> (c: SocialCard)
        ensures
            c@ == (SocialCardView { avatar: color, ..self@ }),
    {
        let mut c = self;
        c.avatar = color;
        c
    }

    /// Replaces the action bar.
    pub fn with_actions(self, actions: Vec<CardAction>) -> (c: SocialCard)
        ensures
            c@ == (SocialCardView {
                actions: actions@.map_values(|a: CardAction| action_view(a)),
                ..self@
            }),
    {
        let mut c = self;
        c.actions = actions;
        c
    }

    /// Sets the accessibility label.
    pub fn label(self, label: &str) -> (c: SocialCard)
        ensures
            c@ == (SocialCardView { label: label@, ..self@ }),
    {
        let mut c = self;
        c.label = owned(label);
        c
    }

    /// The author's name.
    pub fn author(&self) -> (r: &str)
        ensures
            r@ == self@.author,
    {
        self.author.as_str()
    }

    /// The post body.
    pub fn body(&self) -> (r: &str)
        ensures
            r@ == self@.body,
    {
        self.body.as_str()
    }

    /// Number of actions.
    pub fn action_count(&self) -> (r: usize)
        ensures
            r == self@.actions.len(),
    {
        self.actions.len()
    }

    /// Sets the liked state.
    pub fn set_liked(&mut self, liked: bool)
        ensures
            final(self)@ == (SocialCardView { liked, ..old(self)@ }),
    {
        self.liked = liked;
    }

    /// Whether the post is liked.
    pub fn is_liked(&self) -> (r: bool)
        ensures
            r == self@.liked,
    {
        self.liked
    }

    /// Updates the count of action `i`; no-op without such an action.
    pub fn set_count(&mut self, i: usize, count: u32)
        ensures
            final(self)@ == (SocialCardView {
                actions: if i < old(self)@.actions.len() {
                    old(self)@.actions.update(i as int, (old(self)@.actions[i as int].0, count))
                } else {
                    old(self)@.actions
                },
                ..old(self)@
            }),
    {
        if i < self.actions.len() {
            self.actions[i].count = count;
            assert(self@.actions =~= old(self)@.actions.update(
                i as int,
                (old(self)@.actions[i as int].0, count),
            ));
        }
    }

    /// Drains the index of the last activated action.
    pub fn take_action(&mut self) -> (r: Option<usize>)
        ensures
            r == old(self)@.taken,
            final(self)@ == (SocialCardView { taken: None, ..old(self)@ }),
    {
        self.taken.take()
    }

    /// The pointer moved over action `hit` (or none).
    pub fn pointer_moved(&mut self, hit: Option<usize>) -> (r: EventResponse)
        ensures
            final(self)@ == (SocialCardView { hovered: hit, ..old(self)@ }),
            r == (if hit != old(self)@.hovered {
                EventResponse::RequestRepaint
            } else {
                EventResponse::Ignored
            }),
    {
        let same = match (hit, self.hovered) {
            (Some(a), Some(b)) => a == b,
            (None, None) => true,
            _ => false,
        };
        if !same {
            self.hovered = hit;
            return EventResponse::RequestRepaint;
        }
        EventResponse::Ignored
    }

    /// The pointer left the card.
    pub fn pointer_leave(&mut self) -> (r: EventResponse)
        ensures
            final(self)@ == (SocialCardView { hovered: None, ..old(self)@ }),
            r == (if old(self)@.hovered is Some {
                EventResponse::RequestRepaint
            } else {
                EventResponse::Ignored
            }),
    {
        if self.hovered.take().is_some() {
            EventResponse::RequestRepaint
        } else {
            EventResponse::Ignored
        }
    }

    /// The pointer was released over action `hit` (or none): a primary
    /// release activates the action; the first action toggles the like.
    pub fn pointer_released(&mut self, button: PointerButton, hit: Option<usize>) -> (r:
        EventResponse)
        ensures
            button == PointerButton::Primary && hit is Some ==> {
                &&& final(self)@ == (SocialCardView {
                    liked: if hit == Some(0usize) {
                        !old(self)@.liked
                    } else {
                        old(self)@.liked
                    },
                    taken: hit,
                    ..old(self)@
                })
                &&& r == EventResponse::RequestRepaint
            },
            !(button == PointerButton::Primary && hit is Some) ==> final(self)@ == old(self)@ && r
                == EventResponse::Ignored,
    {
        match button {
            PointerButton::Primary => {
                if let Some(i) = hit {
                    if i == 0 {
                        self.liked = !self.liked;
                    }
                    self.taken = Some(i);
                    return EventResponse::RequestRepaint;
                }
                EventResponse::Ignored
            },
            _ => EventResponse::Ignored,
        }
    }

    /// The accessibility node: a group labelled "label by author" whose
    /// value is the body.
    pub fn accessibility(&self) -> (n: AccessNode)
        ensures
            n == (AccessNode { label: n.label, value: n.value, ..AccessNode::blank(Role::Group) }),
            n.label is Some,
            n.label.unwrap()@ == self@.label + " by "@ + self@.author,
            n.value is Some,
            n.value.unwrap()@ == self@.body,
    {
        let mut label = self.label.clone();
        push_str(&mut label, " by ");
        push_str(&mut label, self.author.as_str());
        let mut node = AccessNode::new(Role::Group);
        node.label = Some(label);
        node.value = Some(self.body.clone());
        node
    }
}

} // verus!
