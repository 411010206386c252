//! Alignment along one axis.
use crate::units;
use vstd::prelude::*;

verus! {

/// Where something is put in a space that is larger than it.
#[derive(Debug, Clone, Copy, PartialEq, Eq, Structural)]
pub enum Align {
    /// At the start of the space.
    Start,
    /// In the middle of the space.
    Center,
    /// At the end of the space.
    End,
}

impl Align {
    /// The distance from the start of `space` at which something `extent`
    /// wide is put under this alignment.
    pub open spec fn spec_offset(&self, space: u32, extent: u32) -> int {
        match self {
            Align::Start => 0,
            Align::Center => units::spec_center(space, extent),
            Align::End => units::spec_end(space, extent),
        }
    }

    /// The byte that stands for this alignment in a digest.
    pub open spec fn spec_byte(&self) -> u8 {
        match self {
            Align::Start => 0,
            Align::Center => 1,
            Align::End => 2,
        }
    }

    /// Returns the byte that stands for this alignment in a digest.
    pub fn byte(&self) -> (byte: u8)
        ensures
            byte == self.spec_byte(),
    {
        match self {
            Align::Start => 0,
            Align::Center => 1,
            Align::End => 2,
        }
    }

    /// Computes the distance from the start of `space` at which something
    /// `extent` wide is put under this alignment.
    pub fn offset(&self, space: u32, extent: u32) -> (distance: i64)
        ensures
            distance == self.spec_offset(space, extent),
    {
        match self {
            Align::Start => 0,
            Align::Center => units::center(space, extent),
            Align::End => units::end(space, extent),
        }
    }
}

} // verus!
