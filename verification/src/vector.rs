//! Displacements in the plane.
use crate::units;
use vstd::prelude::*;

verus! {

/// A displacement in two dimensions.
#[derive(Debug, Clone, Copy, PartialEq, Eq, Structural)]
pub struct Vector {
    /// The horizontal component.
    pub x: i64,
    /// The vertical component.
    pub y: i64,
}

impl Vector {
    /// Creates a vector from its components.
    pub fn new(x: i64, y: i64) -> (vector: Vector)
        ensures
            vector == (Vector { x, y }),
    {
        Vector { x, y }
    }

    /// The componentwise sum of two vectors.
    pub open spec fn spec_plus(self, other: Vector) -> Vector {
        Vector {
            x: units::clip_position(self.x + other.x),
            y: units::clip_position(self.y + other.y),
        }
    }

    /// Adds two vectors component by component.
    pub fn plus(self, other: Vector) -> (sum: Vector)
        ensures
            sum == self.spec_plus(other),
    {
        Vector { x: units::shift(self.x, other.x), y: units::shift(self.y, other.y) }
    }
}

impl core::ops::Add for Vector {
    type Output = Vector;

    fn add(self, other: Vector) -> (sum: Vector) {
        self.plus(other)
    }
}

impl vstd::std_specs::ops::AddSpecImpl for Vector {
    open spec fn obeys_add_spec() -> bool {
        true
    }

    open spec fn add_req(self, other: Vector) -> bool {
        true
    }

    open spec fn add_spec(self, other: Vector) -> Vector {
        self.spec_plus(other)
    }
}

} // verus!
