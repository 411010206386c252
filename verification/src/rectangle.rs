//! Axis-aligned rectangles.
use crate::point::Point;
use crate::size::Size;
use vstd::prelude::*;

verus! {

/// A rectangle given by its top-left corner and its extents.
#[derive(Debug, Clone, Copy, PartialEq, Eq, Structural)]
pub struct Rectangle {
    /// The horizontal coordinate of the top-left corner.
    pub x: i64,
    /// The vertical coordinate of the top-left corner.
    pub y: i64,
    /// The width.
    pub width: u32,
    /// The height.
    pub height: u32,
}

impl Rectangle {
    /// Whether `point` lies inside: on the left and top edges it does, on the
    /// right and bottom edges it does not.
    pub open spec fn spec_contains(&self, point: Point) -> bool {
        &&& self.x <= point.x < self.x + self.width
        &&& self.y <= point.y < self.y + self.height
    }

    /// Tells whether `point` lies inside the rectangle.
    pub fn contains(&self, point: Point) -> (inside: bool)
        ensures
            inside == self.spec_contains(point),
    {
        self.x <= point.x && (point.x as i128) < self.x as i128 + self.width as i128 && self.y
            <= point.y && (point.y as i128) < self.y as i128 + self.height as i128
    }

    /// The top-left corner.
    pub open spec fn spec_position(&self) -> Point {
        Point { x: self.x, y: self.y }
    }

    /// Returns the top-left corner.
    pub fn position(&self) -> (corner: Point)
        ensures
            corner == self.spec_position(),
    {
        Point { x: self.x, y: self.y }
    }

    /// The extents.
    pub open spec fn spec_size(&self) -> Size {
        Size { width: self.width, height: self.height }
    }

    /// Returns the extents.
    pub fn size(&self) -> (size: Size)
        ensures
            size == self.spec_size(),
    {
        Size { width: self.width, height: self.height }
    }
}

} // verus!
