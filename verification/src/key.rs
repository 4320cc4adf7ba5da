//! Keys and raw terminal input, as plain values.

use vstd::prelude::*;

verus! {

/// A key of the keyboard, as far as the screens tell keys apart.
#[derive(Clone, Copy, Debug, PartialEq, Eq, Structural)]
pub enum Key {
    /// A printable character.
    Char(char),
    /// The tabulator key.
    Tab,
    /// The escape key.
    Esc,
    /// The return key.
    Enter,
    /// Any key that no screen reacts to.
    Other,
}

/// What happened to a key.
#[derive(Clone, Copy, Debug, PartialEq, Eq, Structural)]
pub enum KeyKind {
    Press,
    Repeat,
    Release,
}

/// One item of the raw terminal input stream.
#[derive(Clone, Copy, Debug, PartialEq, Eq, Structural)]
pub enum RawInput {
    /// A key event of the given kind.
    Key(KeyKind, Key),
    /// Any other kind of terminal event (resize, mouse, focus, paste).
    Other,
}

impl RawInput {
    /// The key that this item presses, if it is a key press.
    pub open spec fn pressed(self) -> Option<Key> {
        match self {
            RawInput::Key(KeyKind::Press, key) => Some(key),
            _ => None,
        }
    }

    /// Filters a raw item at the input boundary: a key press yields its
    /// key, every other item is discarded.
    pub fn key_press(&self) -> (r: Option<Key>)
        ensures
            r == self.pressed(),
    {
        match self {
            RawInput::Key(KeyKind::Press, key) => Some(*key),
            _ => None,
        }
    }
}

} // verus!
