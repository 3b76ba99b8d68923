//! Input events, as far as the editor tells them apart.

use vstd::prelude::*;

verus! {

/// The key of a key event.
#[derive(Copy, Clone, Debug, PartialEq, Eq, Structural)]
pub enum KeyCode {
    /// A character key.
    Char(char),
    Up,
    Down,
    Left,
    Right,
    PageUp,
    PageDown,
    Home,
    End,
    /// Any other key.
    Other,
}

/// The modifier keys that were held down with a key.
#[derive(Copy, Clone, Debug, PartialEq, Eq, Structural)]
pub enum KeyModifiers {
    /// No modifier key.
    Plain,
    /// Shift, and no other.
    Shift,
    /// Control, and no other.
    Control,
    /// Any other modifier key or combination of them.
    Other,
}

/// A key with its modifiers.
#[derive(Copy, Clone, Debug, PartialEq, Eq, Structural)]
pub struct KeyEvent {
    pub code: KeyCode,
    pub modifiers: KeyModifiers,
}

/// One input event.
#[derive(Copy, Clone, Debug, PartialEq, Eq, Structural)]
pub enum Event {
    /// A key was pressed.
    Key(KeyEvent),
    /// Anything else: the editor ignores it.
    Other,
}

/// Whether `c` is a control character: one of U+0000 to U+001F or U+007F to
/// U+009F.
pub open spec fn is_control(c: char) -> bool {
    c as u32 <= 0x1f || 0x7f <= c as u32 <= 0x9f
}

impl KeyCode {
    /// Whether the key is one of the eight that move the caret.
    pub open spec fn is_navigation(self) -> bool {
        self is Up || self is Down || self is Left || self is Right || self is PageUp
            || self is PageDown || self is Home || self is End
    }

    /// Whether the key is one of the eight that move the caret.
    pub fn moves_caret(&self) -> (navigation: bool)
        ensures
            navigation == self.is_navigation(),
    {
        match self {
            KeyCode::Up
            | KeyCode::Down
            | KeyCode::Left
            | KeyCode::Right
            | KeyCode::PageUp
            | KeyCode::PageDown
            | KeyCode::Home
            | KeyCode::End => true,
            _ => false,
        }
    }
}

impl Event {
    /// Whether the event is the press of one of the eight keys that move the
    /// caret.
    pub open spec fn is_navigation(self) -> bool {
        self matches Event::Key(key) && key.code.is_navigation()
    }

    /// Whether the event is the press of one of the eight keys that move the
    /// caret. Only for such an event does the viewport's size matter.
    pub fn moves_caret(&self) -> (navigation: bool)
        ensures
            navigation == self.is_navigation(),
    {
        match self {
            Event::Key(key) => key.code.moves_caret(),
            Event::Other => false,
        }
    }
}

impl KeyEvent {
    /// Whether the event is the quit combination: `q` with control.
    pub open spec fn is_quit(self) -> bool {
        self.code == KeyCode::Char('q') && self.modifiers == KeyModifiers::Control
    }

    /// The character that the event types, if it types one: a character key,
    /// alone or with shift, whose character is no control character.
    pub open spec fn printable(self) -> Option<char> {
        match self.code {
            KeyCode::Char(c) => if (self.modifiers is Plain || self.modifiers is Shift)
                && !is_control(c) {
                Some(c)
            } else {
                None
            },
            _ => None,
        }
    }

    /// Whether the event is the quit combination.
    pub fn quits(&self) -> (quit: bool)
        ensures
            quit == self.is_quit(),
    {
        match (self.code, self.modifiers) {
            (KeyCode::Char(c), KeyModifiers::Control) => c == 'q',
            _ => false,
        }
    }

    /// The character that the event types, if it types one.
    pub fn typed_char(&self) -> (typed: Option<char>)
        ensures
            typed == self.printable(),
    {
        match (self.code, self.modifiers) {
            (KeyCode::Char(c), KeyModifiers::Plain) | (KeyCode::Char(c), KeyModifiers::Shift) => {
                let code = c as u32;
                if code <= 0x1f || (0x7f <= code && code <= 0x9f) {
                    None
                } else {
                    Some(c)
                }
            },
            _ => None,
        }
    }
}

} // verus!
