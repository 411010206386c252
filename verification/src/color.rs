//! Colors.
use vstd::prelude::*;

verus! {

/// A color, by its red, green and blue parts and its opacity, each from 0
/// to 255.
#[derive(Debug, Clone, Copy, PartialEq, Eq, Structural)]
pub struct Color {
    /// The red part.
    pub r: u8,
    /// The green part.
    pub g: u8,
    /// The blue part.
    pub b: u8,
    /// The opacity.
    pub a: u8,
}

} // verus!
