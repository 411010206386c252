//! Positions in the plane.
use crate::units;
use crate::vector::Vector;
use vstd::prelude::*;

verus! {

/// A position in two dimensions.
#[derive(Debug, Clone, Copy, PartialEq, Eq, Structural)]
pub struct Point {
    /// The horizontal coordinate.
    pub x: i64,
    /// The vertical coordinate.
    pub y: i64,
}

impl Point {
    /// The point from which positions are counted.
    pub open spec fn spec_origin() -> Point {
        Point { x: 0, y: 0 }
    }

    /// Returns the point from which positions are counted.
    #[verifier::when_used_as_spec(spec_origin)]
    pub fn origin() -> (point: Point)
        ensures
            point == Point::spec_origin(),
    {
        Point { x: 0, y: 0 }
    }

    /// Creates a point from its coordinates.
    pub fn new(x: i64, y: i64) -> (point: Point)
        ensures
            point == (Point { x, y }),
    {
        Point { x, y }
    }

    /// This point displaced by `offset`.
    pub open spec fn spec_moved(self, offset: Vector) -> Point {
        Point {
            x: units::clip_position(self.x + offset.x),
            y: units::clip_position(self.y + offset.y),
        }
    }

    /// Displaces the point by `offset`.
    pub fn moved(self, offset: Vector) -> (point: Point)
        ensures
            point == self.spec_moved(offset),
    {
        Point { x: units::shift(self.x, offset.x), y: units::shift(self.y, offset.y) }
    }
}

impl core::ops::Add<Vector> for Point {
    type Output = Point;

    fn add(self, offset: Vector) -> (point: Point) {
        self.moved(offset)
    }
}

impl vstd::std_specs::ops::AddSpecImpl<Vector> for Point {
    open spec fn obeys_add_spec() -> bool {
        true
    }

    open spec fn add_req(self, offset: Vector) -> bool {
        true
    }

    open spec fn add_spec(self, offset: Vector) -> Point {
        self.spec_moved(offset)
    }
}

} // verus!
