//! Input vocabulary shared by the widgets: keys, accessibility
//! actions, and what a widget answers to an event.

use vstd::prelude::*;

verus! {

/// What a widget answers to an event.
#[derive(Clone, Copy, Debug, PartialEq, Eq, Structural)]
pub enum EventResponse {
    /// The event was not for this widget.
    Ignored,
    /// The event was consumed; nothing visible changed.
    Handled,
    /// The event was consumed and the widget must be repainted.
    RequestRepaint,
    /// The widget asks for keyboard focus.
    CaptureFocus,
    /// The widget grabs the pointer until release.
    CapturePointer,
    /// The widget gives a pointer grab back.
    ReleasePointer,
}

/// An action requested by assistive technology.
#[derive(Clone, Copy, Debug, PartialEq, Eq, Structural)]
pub enum SemanticAction {
    Click,
    Focus,
    Increment,
    Decrement,
    /// Set the value from text the action carries.
    SetValue,
    /// Scroll to an offset the action carries.
    SetScrollOffset,
    /// Scroll a point the action carries into view.
    ScrollToPoint,
    ScrollUp,
    ScrollDown,
    ScrollLeft,
    ScrollRight,
    ScrollIntoView,
}

/// Which pointer button an event is about.
#[derive(Clone, Copy, Debug, PartialEq, Eq, Structural)]
pub enum PointerButton {
    Primary,
    Secondary,
    Middle,
}

/// The keys the widgets react to, parsed from a key name.
#[derive(Clone, Copy, Debug, PartialEq, Eq, Structural)]
pub enum Key {
    ArrowUp,
    ArrowDown,
    ArrowLeft,
    ArrowRight,
    Home,
    End,
    PageUp,
    PageDown,
    Enter,
    /// The key named `"Space"`.
    Space,
    /// The space bar reported as the character `" "`.
    Blank,
    Escape,
    /// `"l"` or `"L"`.
    LetterL,
    /// `"r"` or `"R"`.
    LetterR,
    /// Any other name.
    Other,
}

/// The key a name stands for.
pub open spec fn key_of(name: Seq<char>) -> Key {
    if name == "ArrowUp"@ {
        Key::ArrowUp
    } else if name == "ArrowDown"@ {
        Key::ArrowDown
    } else if name == "ArrowLeft"@ {
        Key::ArrowLeft
    } else if name == "ArrowRight"@ {
        Key::ArrowRight
    } else if name == "Home"@ {
        Key::Home
    } else if name == "End"@ {
        Key::End
    } else if name == "PageUp"@ {
        Key::PageUp
    } else if name == "PageDown"@ {
        Key::PageDown
    } else if name == "Enter"@ {
        Key::Enter
    } else if name == "Space"@ {
        Key::Space
    } else if name == " "@ {
        Key::Blank
    } else if name == "Escape"@ {
        Key::Escape
    } else if name == "l"@ || name == "L"@ {
        Key::LetterL
    } else if name == "r"@ || name == "R"@ {
        Key::LetterR
    } else {
        Key::Other
    }
}

/// Whether two strings hold the same characters.
pub fn same_text(a: &str, b: &str) -> (r: bool)
    ensures
        r == (a@ == b@),
{
    let n = a.unicode_len();
    if n != b.unicode_len() {
        return false;
    }
    let mut i: usize = 0;
    while i < n
        invariant
            n == a@.len(),
            n == b@.len(),
            i <= n,
            forall|j: int| 0 <= j < i ==> a@[j] == b@[j],
        decreases n - i,
    {
        if a.get_char(i) != b.get_char(i) {
            return false;
        }
        i = i + 1;
    }
    assert(a@ =~= b@);
    true
}

/// The key names the windowing layer reports map to their keys.
pub proof fn lemma_key_names()
    ensures
        key_of("ArrowUp"@) == Key::ArrowUp,
        key_of("ArrowDown"@) == Key::ArrowDown,
        key_of("ArrowLeft"@) == Key::ArrowLeft,
        key_of("ArrowRight"@) == Key::ArrowRight,
        key_of("Home"@) == Key::Home,
        key_of("End"@) == Key::End,
        key_of("PageUp"@) == Key::PageUp,
        key_of("PageDown"@) == Key::PageDown,
        key_of("Enter"@) == Key::Enter,
        key_of("Escape"@) == Key::Escape,
{
    reveal_strlit("ArrowUp");
    reveal_strlit("ArrowDown");
    reveal_strlit("ArrowLeft");
    reveal_strlit("ArrowRight");
    reveal_strlit("Home");
    reveal_strlit("End");
    reveal_strlit("PageUp");
    reveal_strlit("PageDown");
    reveal_strlit("Enter");
    reveal_strlit("Space");
    reveal_strlit(" ");
    reveal_strlit("Escape");
    assert("ArrowDown"@ != "ArrowUp"@) by { assert("ArrowDown"@.len() != "ArrowUp"@.len()); }
    assert("ArrowLeft"@ != "ArrowUp"@) by { assert("ArrowLeft"@.len() != "ArrowUp"@.len()); }
    assert("ArrowLeft"@ != "ArrowDown"@) by { assert("ArrowLeft"@[5] != "ArrowDown"@[5]); }
    assert("ArrowRight"@ != "ArrowUp"@) by { assert("ArrowRight"@.len() != "ArrowUp"@.len()); }
    assert("ArrowRight"@ != "ArrowDown"@) by { assert("ArrowRight"@.len() != "ArrowDown"@.len()); }
    assert("ArrowRight"@ != "ArrowLeft"@) by { assert("ArrowRight"@.len() != "ArrowLeft"@.len()); }
    assert("Home"@ != "ArrowUp"@) by { assert("Home"@.len() != "ArrowUp"@.len()); }
    assert("Home"@ != "ArrowDown"@) by { assert("Home"@.len() != "ArrowDown"@.len()); }
    assert("Home"@ != "ArrowLeft"@) by { assert("Home"@.len() != "ArrowLeft"@.len()); }
    assert("Home"@ != "ArrowRight"@) by { assert("Home"@.len() != "ArrowRight"@.len()); }
    assert("End"@ != "ArrowUp"@) by { assert("End"@.len() != "ArrowUp"@.len()); }
    assert("End"@ != "ArrowDown"@) by { assert("End"@.len() != "ArrowDown"@.len()); }
    assert("End"@ != "ArrowLeft"@) by { assert("End"@.len() != "ArrowLeft"@.len()); }
    assert("End"@ != "ArrowRight"@) by { assert("End"@.len() != "ArrowRight"@.len()); }
    assert("End"@ != "Home"@) by { assert("End"@.len() != "Home"@.len()); }
    assert("PageUp"@ != "ArrowUp"@) by { assert("PageUp"@.len() != "ArrowUp"@.len()); }
    assert("PageUp"@ != "ArrowDown"@) by { assert("PageUp"@.len() != "ArrowDown"@.len()); }
    assert("PageUp"@ != "ArrowLeft"@) by { assert("PageUp"@.len() != "ArrowLeft"@.len()); }
    assert("PageUp"@ != "ArrowRight"@) by { assert("PageUp"@.len() != "ArrowRight"@.len()); }
    assert("PageUp"@ != "Home"@) by { assert("PageUp"@.len() != "Home"@.len()); }
    assert("PageUp"@ != "End"@) by { assert("PageUp"@.len() != "End"@.len()); }
    assert("PageDown"@ != "ArrowUp"@) by { assert("PageDown"@.len() != "ArrowUp"@.len()); }
    assert("PageDown"@ != "ArrowDown"@) by { assert("PageDown"@.len() != "ArrowDown"@.len()); }
    assert("PageDown"@ != "ArrowLeft"@) by { assert("PageDown"@.len() != "ArrowLeft"@.len()); }
    assert("PageDown"@ != "ArrowRight"@) by { assert("PageDown"@.len() != "ArrowRight"@.len()); }
    assert("PageDown"@ != "Home"@) by { assert("PageDown"@.len() != "Home"@.len()); }
    assert("PageDown"@ != "End"@) by { assert("PageDown"@.len() != "End"@.len()); }
    assert("PageDown"@ != "PageUp"@) by { assert("PageDown"@.len() != "PageUp"@.len()); }
    assert("Enter"@ != "ArrowUp"@) by { assert("Enter"@.len() != "ArrowUp"@.len()); }
    assert("Enter"@ != "ArrowDown"@) by { assert("Enter"@.len() != "ArrowDown"@.len()); }
    assert("Enter"@ != "ArrowLeft"@) by { assert("Enter"@.len() != "ArrowLeft"@.len()); }
    assert("Enter"@ != "ArrowRight"@) by { assert("Enter"@.len() != "ArrowRight"@.len()); }
    assert("Enter"@ != "Home"@) by { assert("Enter"@.len() != "Home"@.len()); }
    assert("Enter"@ != "End"@) by { assert("Enter"@.len() != "End"@.len()); }
    assert("Enter"@ != "PageUp"@) by { assert("Enter"@.len() != "PageUp"@.len()); }
    assert("Enter"@ != "PageDown"@) by { assert("Enter"@.len() != "PageDown"@.len()); }
    assert("Escape"@ != "ArrowUp"@) by { assert("Escape"@.len() != "ArrowUp"@.len()); }
    assert("Escape"@ != "ArrowDown"@) by { assert("Escape"@.len() != "ArrowDown"@.len()); }
    assert("Escape"@ != "ArrowLeft"@) by { assert("Escape"@.len() != "ArrowLeft"@.len()); }
    assert("Escape"@ != "ArrowRight"@) by { assert("Escape"@.len() != "ArrowRight"@.len()); }
    assert("Escape"@ != "Home"@) by { assert("Escape"@.len() != "Home"@.len()); }
    assert("Escape"@ != "End"@) by { assert("Escape"@.len() != "End"@.len()); }
    assert("Escape"@ != "PageUp"@) by { assert("Escape"@[0] != "PageUp"@[0]); }
    assert("Escape"@ != "PageDown"@) by { assert("Escape"@.len() != "PageDown"@.len()); }
    assert("Escape"@ != "Enter"@) by { assert("Escape"@.len() != "Enter"@.len()); }
    assert("Escape"@ != "Space"@) by { assert("Escape"@.len() != "Space"@.len()); }
    assert("Escape"@ != " "@) by { assert("Escape"@.len() != " "@.len()); }
}

impl Key {
    /// Parses a key name as the windowing layer reports it.
    pub fn from_name(name: &str) -> (k: Key)
        ensures
            k == key_of(name@),
    {
        if same_text(name, "ArrowUp") {
            Key::ArrowUp
        } else if same_text(name, "ArrowDown") {
            Key::ArrowDown
        } else if same_text(name, "ArrowLeft") {
            Key::ArrowLeft
        } else if same_text(name, "ArrowRight") {
            Key::ArrowRight
        } else if same_text(name, "Home") {
            Key::Home
        } else if same_text(name, "End") {
            Key::End
        } else if same_text(name, "PageUp") {
            Key::PageUp
        } else if same_text(name, "PageDown") {
            Key::PageDown
        } else if same_text(name, "Enter") {
            Key::Enter
        } else if same_text(name, "Space") {
            Key::Space
        } else if same_text(name, " ") {
            Key::Blank
        } else if same_text(name, "Escape") {
            Key::Escape
        } else if same_text(name, "l") || same_text(name, "L") {
            Key::LetterL
        } else if same_text(name, "r") || same_text(name, "R") {
            Key::LetterR
        } else {
            Key::Other
        }
    }
}

} // verus!
