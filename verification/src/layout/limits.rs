//! Box constraints.
use crate::length::Length;
use crate::size::Size;
use crate::units;
use vstd::prelude::*;

verus! {

/// The least and the greatest size that a layout may take.
///
/// An extent of [`units::UNBOUNDED`] in the maximum leaves that axis without
/// an upper limit.
#[derive(Debug, Clone, Copy, PartialEq, Eq, Structural)]
pub struct Limits {
    /// The least size.
    pub min: Size,
    /// The greatest size.
    pub max: Size,
}

/// The value of `extent` brought into the range from `min` to `max`: first
/// lowered to `max`, then raised to `min`.
pub open spec fn spec_clamp(extent: u32, min: u32, max: u32) -> u32 {
    let capped = if extent <= max {
        extent
    } else {
        max
    };
    if capped >= min {
        capped
    } else {
        min
    }
}

/// Brings `extent` into the range from `min` to `max`.
pub fn clamp(extent: u32, min: u32, max: u32) -> (clamped: u32)
    ensures
        clamped == spec_clamp(extent, min, max),
        min <= max ==> min <= clamped <= max,
{
    let capped = if extent <= max {
        extent
    } else {
        max
    };
    if capped >= min {
        capped
    } else {
        min
    }
}

impl Limits {
    /// Whether the least size is within the greatest one on both axes.
    pub open spec fn is_valid(&self) -> bool {
        &&& self.min.width <= self.max.width
        &&& self.min.height <= self.max.height
    }

    /// The limits that allow every size.
    pub open spec fn spec_none() -> Limits {
        Limits { min: Size::spec_zero(), max: Size::spec_unbounded() }
    }

    /// Returns the limits that allow every size.
    #[verifier::when_used_as_spec(spec_none)]
    pub fn none() -> (limits: Limits)
        ensures
            limits == Limits::spec_none(),
            limits.is_valid(),
    {
        Limits { min: Size::zero(), max: Size::unbounded() }
    }

    /// Creates limits from the least and the greatest size.
    pub fn new(min: Size, max: Size) -> (limits: Limits)
        ensures
            limits == (Limits { min, max }),
    {
        Limits { min, max }
    }

    /// Returns the least size.
    pub fn min(&self) -> (size: Size)
        ensures
            size == self.min,
    {
        self.min
    }

    /// Returns the greatest size.
    pub fn max(&self) -> (size: Size)
        ensures
            size == self.max,
    {
        self.max
    }

    /// These limits under a sizing policy for the width: a fixed number of
    /// units, brought into the limits, becomes both the least and the
    /// greatest width; any other policy leaves the limits as they are.
    pub open spec fn spec_width(&self, width: Length) -> Limits {
        match width {
            Length::Units(units) => {
                let fixed = spec_clamp(units as u32, self.min.width, self.max.width);
                Limits {
                    min: Size { width: fixed, height: self.min.height },
                    max: Size { width: fixed, height: self.max.height },
                }
            },
            _ => *self,
        }
    }

    /// Applies a sizing policy for the width.
    #[verifier::when_used_as_spec(spec_width)]
    pub fn width(&self, width: Length) -> (limits: Limits)
        ensures
            limits == self.spec_width(width),
            self.is_valid() ==> limits.is_valid(),
    {
        match width {
            Length::Units(units) => {
                let fixed = clamp(units as u32, self.min.width, self.max.width);
                Limits {
                    min: Size { width: fixed, height: self.min.height },
                    max: Size { width: fixed, height: self.max.height },
                }
            },
            _ => *self,
        }
    }

    /// These limits under a sizing policy for the height: a fixed number of
    /// units, brought into the limits, becomes both the least and the
    /// greatest height; any other policy leaves the limits as they are.
    pub open spec fn spec_height(&self, height: Length) -> Limits {
        match height {
            Length::Units(units) => {
                let fixed = spec_clamp(units as u32, self.min.height, self.max.height);
                Limits {
                    min: Size { width: self.min.width, height: fixed },
                    max: Size { width: self.max.width, height: fixed },
                }
            },
            _ => *self,
        }
    }

    /// Applies a sizing policy for the height.
    #[verifier::when_used_as_spec(spec_height)]
    pub fn height(&self, height: Length) -> (limits: Limits)
        ensures
            limits == self.spec_height(height),
            self.is_valid() ==> limits.is_valid(),
    {
        match height {
            Length::Units(units) => {
                let fixed = clamp(units as u32, self.min.height, self.max.height);
                Limits {
                    min: Size { width: self.min.width, height: fixed },
                    max: Size { width: self.max.width, height: fixed },
                }
            },
            _ => *self,
        }
    }

    /// These limits with the greatest width lowered to `max_width`, though
    /// not below the least width.
    pub open spec fn spec_max_width(&self, max_width: u32) -> Limits {
        Limits {
            min: self.min,
            max: Size {
                width: spec_clamp(self.max.width, self.min.width, max_width),
                height: self.max.height,
            },
        }
    }

    /// Lowers the greatest width to `max_width`.
    #[verifier::when_used_as_spec(spec_max_width)]
    pub fn max_width(&self, max_width: u32) -> (limits: Limits)
        ensures
            limits == self.spec_max_width(max_width),
            self.is_valid() ==> limits.is_valid(),
            self.is_valid() ==> limits.max.width <= self.max.width,
    {
        Limits {
            min: self.min,
            max: Size {
                width: clamp(self.max.width, self.min.width, max_width),
                height: self.max.height,
            },
        }
    }

    /// These limits with the greatest height lowered to `max_height`, though
    /// not below the least height.
    pub open spec fn spec_max_height(&self, max_height: u32) -> Limits {
        Limits {
            min: self.min,
            max: Size {
                width: self.max.width,
                height: spec_clamp(self.max.height, self.min.height, max_height),
            },
        }
    }

    /// Lowers the greatest height to `max_height`.
    #[verifier::when_used_as_spec(spec_max_height)]
    pub fn max_height(&self, max_height: u32) -> (limits: Limits)
        ensures
            limits == self.spec_max_height(max_height),
            self.is_valid() ==> limits.is_valid(),
            self.is_valid() ==> limits.max.height <= self.max.height,
    {
        Limits {
            min: self.min,
            max: Size {
                width: self.max.width,
                height: clamp(self.max.height, self.min.height, max_height),
            },
        }
    }

    /// These limits with twice `padding` taken from the least and from the
    /// greatest size on both axes.
    pub open spec fn spec_pad(&self, padding: u16) -> Limits {
        let both = (2 * padding) as u32;
        Limits {
            min: Size {
                width: units::spec_shrink(self.min.width, both),
                height: units::spec_shrink(self.min.height, both),
            },
            max: Size {
                width: units::spec_shrink(self.max.width, both),
                height: units::spec_shrink(self.max.height, both),
            },
        }
    }

    /// Makes room for `padding` on every side.
    #[verifier::when_used_as_spec(spec_pad)]
    pub fn pad(&self, padding: u16) -> (limits: Limits)
        ensures
            limits == self.spec_pad(padding),
            self.is_valid() ==> limits.is_valid(),
    {
        let both: u32 = 2 * (padding as u32);
        Limits {
            min: Size {
                width: units::shrink(self.min.width, both),
                height: units::shrink(self.min.height, both),
            },
            max: Size {
                width: units::shrink(self.max.width, both),
                height: units::shrink(self.max.height, both),
            },
        }
    }

    /// These limits without a least size.
    pub open spec fn spec_loose(&self) -> Limits {
        Limits { min: Size::spec_zero(), max: self.max }
    }

    /// Drops the least size.
    #[verifier::when_used_as_spec(spec_loose)]
    pub fn loose(&self) -> (limits: Limits)
        ensures
            limits == self.spec_loose(),
            limits.is_valid(),
    {
        Limits { min: Size::zero(), max: self.max }
    }

    /// The size within these limits that is nearest to `desired`.
    pub open spec fn spec_resolve(&self, desired: Size) -> Size {
        Size {
            width: spec_clamp(desired.width, self.min.width, self.max.width),
            height: spec_clamp(desired.height, self.min.height, self.max.height),
        }
    }

    /// Brings `desired` into the limits. No size is refused: one that is too
    /// small or too large becomes the nearest size that is allowed.
    #[verifier::when_used_as_spec(spec_resolve)]
    pub fn resolve(&self, desired: Size) -> (size: Size)
        ensures
            size == self.spec_resolve(desired),
            self.is_valid() ==> self.min.width <= size.width <= self.max.width,
            self.is_valid() ==> self.min.height <= size.height <= self.max.height,
            self.spec_resolve(size) == size,
    {
        Size {
            width: clamp(desired.width, self.min.width, self.max.width),
            height: clamp(desired.height, self.min.height, self.max.height),
        }
    }
}

/// A resolved size lies within valid limits on both axes.
pub proof fn lemma_resolve_within(limits: Limits, desired: Size)
    requires
        limits.is_valid(),
    ensures
        limits.min.width <= limits.resolve(desired).width <= limits.max.width,
        limits.min.height <= limits.resolve(desired).height <= limits.max.height,
{
}

/// Resolving a size that has been resolved changes nothing.
pub proof fn lemma_resolve_idempotent(limits: Limits, desired: Size)
    ensures
        limits.resolve(limits.resolve(desired)) == limits.resolve(desired),
{
}

} // verus!
