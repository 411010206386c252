//! Input from the mouse and the keyboard.
pub mod keyboard;
pub mod mouse;

use vstd::prelude::*;

verus! {

/// The state of a button or a key.
#[derive(Debug, Clone, Copy, PartialEq, Eq, Structural)]
pub enum ButtonState {
    /// The button is pressed.
    Pressed,
    /// The button is released.
    Released,
}

} // verus!
