//! Mouse events.
use crate::input::ButtonState;
use vstd::prelude::*;

verus! {

/// A button of the mouse.
#[derive(Debug, Clone, Copy, PartialEq, Eq, Structural)]
pub enum Button {
    /// The left button.
    Left,
    /// The right button.
    Right,
    /// The middle button, often the wheel.
    Middle,
    /// Another button, by its number.
    Other(u8),
}

/// How far a wheel was turned.
#[derive(Debug, Clone, Copy, PartialEq, Eq, Structural)]
pub enum ScrollDelta {
    /// A distance in lines.
    Lines {
        /// The number of lines to the right.
        x: i64,
        /// The number of lines down.
        y: i64,
    },
    /// A distance in units.
    Pixels {
        /// The number of units to the right.
        x: i64,
        /// The number of units down.
        y: i64,
    },
}

/// Something that happened to the mouse.
#[derive(Debug, Clone, Copy, PartialEq, Eq, Structural)]
pub enum Event {
    /// The cursor went to a new position in the window.
    CursorMoved {
        /// The horizontal coordinate of the new position.
        x: i64,
        /// The vertical coordinate of the new position.
        y: i64,
    },
    /// A button was pressed or released.
    Input {
        /// The new state of the button.
        state: ButtonState,
        /// The button.
        button: Button,
    },
    /// The wheel was turned.
    WheelScrolled {
        /// How far it was turned.
        delta: ScrollDelta,
    },
}

} // verus!
