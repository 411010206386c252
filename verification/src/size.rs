//! Two-dimensional extents.
use crate::units;
use vstd::prelude::*;

verus! {

/// An amount of space in two dimensions.
#[derive(Debug, Clone, Copy, PartialEq, Eq, Structural)]
pub struct Size {
    /// The width.
    pub width: u32,
    /// The height.
    pub height: u32,
}

impl Size {
    /// The size with no width and no height.
    pub open spec fn spec_zero() -> Size {
        Size { width: 0, height: 0 }
    }

    /// Returns the size with no width and no height.
    #[verifier::when_used_as_spec(spec_zero)]
    pub fn zero() -> (size: Size)
        ensures
            size == Size::spec_zero(),
    {
        Size { width: 0, height: 0 }
    }

    /// The size without limit in either dimension.
    pub open spec fn spec_unbounded() -> Size {
        Size { width: units::UNBOUNDED, height: units::UNBOUNDED }
    }

    /// Returns the size without limit in either dimension.
    #[verifier::when_used_as_spec(spec_unbounded)]
    pub fn unbounded() -> (size: Size)
        ensures
            size == Size::spec_unbounded(),
    {
        Size { width: units::UNBOUNDED, height: units::UNBOUNDED }
    }

    /// Creates a size from its two extents.
    pub fn new(width: u32, height: u32) -> (size: Size)
        ensures
            size == (Size { width, height }),
    {
        Size { width, height }
    }

    /// This size with `padding` added before and after in both dimensions.
    pub open spec fn spec_pad(&self, padding: u16) -> Size {
        Size {
            width: units::clip(self.width + 2 * padding),
            height: units::clip(self.height + 2 * padding),
        }
    }

    /// Adds `padding` before and after in both dimensions.
    pub fn pad(&self, padding: u16) -> (padded: Size)
        ensures
            padded == self.spec_pad(padding),
    {
        let both: u32 = 2 * (padding as u32);
        Size { width: units::grow(self.width, both), height: units::grow(self.height, both) }
    }
}

} // verus!
