//! Keyboard events.
use crate::input::ButtonState;
use vstd::prelude::*;

verus! {

/// The number by which a key is known, whatever the platform.
#[derive(Debug, Clone, Copy, PartialEq, Eq, Structural)]
pub struct KeyCode(pub u32);

/// Something that happened to the keyboard.
#[derive(Debug, Clone, Copy, PartialEq, Eq, Structural)]
pub enum Event {
    /// A key was pressed or released.
    Input {
        /// The new state of the key.
        state: ButtonState,
        /// The key.
        key_code: KeyCode,
    },
    /// A character came in.
    CharacterReceived(char),
}

/// Whether `c` is a code point that Unicode sets aside for private use.
pub open spec fn spec_is_private_use_character(c: char) -> bool {
    ||| 0xE000 <= c as u32 <= 0xF8FF
    ||| 0xF0000 <= c as u32 <= 0xFFFFD
    ||| 0x100000 <= c as u32 <= 0x10FFFD
}

/// Tells whether `c` is a code point that Unicode sets aside for private use.
/// Keyboards report function keys as such characters on some platforms; they
/// are no text.
pub fn is_private_use_character(c: char) -> (private: bool)
    ensures
        private == spec_is_private_use_character(c),
{
    let code: u32 = c as u32;
    (0xE000 <= code && code <= 0xF8FF) || (0xF0000 <= code && code <= 0xFFFFD) || (0x100000
        <= code && code <= 0x10FFFD)
}

/// The event that a character from the keyboard gives rise to: none for a
/// character that Unicode sets aside for private use, the receipt of the
/// character for every other.
pub open spec fn spec_character_received(c: char) -> Option<Event> {
    if spec_is_private_use_character(c) {
        None
    } else {
        Some(Event::CharacterReceived(c))
    }
}

/// Turns a character from the keyboard into the event that it gives rise
/// to, if any.
pub fn character_received(c: char) -> (event: Option<Event>)
    ensures
        event == spec_character_received(c),
{
    if is_private_use_character(c) {
        None
    } else {
        Some(Event::CharacterReceived(c))
    }
}

} // verus!
