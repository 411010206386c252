//! Backgrounds.
use crate::color::Color;
use vstd::prelude::*;

verus! {

/// The background of some element.
#[derive(Debug, Clone, Copy, PartialEq, Eq, Structural)]
pub enum Background {
    /// A solid color.
    Color(Color),
}

} // verus!
