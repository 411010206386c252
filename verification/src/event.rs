//! Input events.
use crate::input::keyboard;
use crate::input::mouse;
use crate::point::Point;
use vstd::prelude::*;

verus! {

/// Something that the user did.
#[derive(Debug, Clone, Copy, PartialEq, Eq, Structural)]
pub enum Event {
    /// Something that happened to the mouse.
    Mouse(mouse::Event),
    /// Something that happened to the keyboard.
    Keyboard(keyboard::Event),
}

impl Event {
    /// Where the cursor is once this event has happened, if it was at
    /// `cursor_position` before.
    pub open spec fn spec_cursor_after(&self, cursor_position: Point) -> Point {
        match self {
            Event::Mouse(mouse::Event::CursorMoved { x, y }) => Point { x: *x, y: *y },
            _ => cursor_position,
        }
    }

    /// Returns where the cursor is once this event has happened.
    pub fn cursor_after(&self, cursor_position: Point) -> (position: Point)
        ensures
            position == self.spec_cursor_after(cursor_position),
    {
        match self {
            Event::Mouse(mouse::Event::CursorMoved { x, y }) => Point { x: *x, y: *y },
            _ => cursor_position,
        }
    }
}

} // verus!
