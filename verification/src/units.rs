//! Arithmetic on extents and positions.
//!
//! An extent is a `u32` number of units in which [`UNBOUNDED`] means "as much
//! as there is". Sums stop at [`UNBOUNDED`], differences stop at zero, and
//! taking a finite amount away from an unbounded extent leaves it unbounded.
//! A position is an `i64`; sums of positions stop at the ends of its range.
use vstd::prelude::*;

verus! {

/// The extent that stands for "no limit".
pub const UNBOUNDED: u32 = 0xFFFF_FFFF;

/// The extent nearest to a whole number.
pub open spec fn clip(value: int) -> u32 {
    if value <= 0 {
        0
    } else if value >= UNBOUNDED {
        UNBOUNDED
    } else {
        value as u32
    }
}

/// What is left of `extent` once `amount` is taken away.
pub open spec fn spec_shrink(extent: u32, amount: u32) -> u32 {
    if amount == UNBOUNDED {
        0
    } else if extent == UNBOUNDED {
        UNBOUNDED
    } else {
        clip(extent - amount)
    }
}

/// The share of `remaining` that falls to a weight of `factor` out of `total`,
/// rounded down. An unbounded remainder gives an unbounded share, and a total
/// of zero gives none.
pub open spec fn spec_share(remaining: u32, factor: u16, total: int) -> u32 {
    if total <= 0 || factor == 0 {
        0
    } else if remaining == UNBOUNDED {
        UNBOUNDED
    } else {
        clip((remaining * factor) / total)
    }
}

/// The position nearest to a whole number.
pub open spec fn clip_position(value: int) -> i64 {
    if value <= i64::MIN {
        i64::MIN
    } else if value >= i64::MAX {
        i64::MAX
    } else {
        value as i64
    }
}

/// The distance from the start of `space` at which something `extent` wide
/// sits in its middle; negative where it is wider than the space.
pub open spec fn spec_center(space: u32, extent: u32) -> int {
    (space - extent) / 2
}

/// The distance from the start of `space` at which something `extent` wide
/// ends where the space ends; negative where it is wider than the space.
pub open spec fn spec_end(space: u32, extent: u32) -> int {
    space - extent
}

/// Adds two extents.
pub fn grow(extent: u32, amount: u32) -> (sum: u32)
    ensures
        sum == clip(extent + amount),
{
    if amount > UNBOUNDED - extent {
        UNBOUNDED
    } else {
        extent + amount
    }
}

/// Takes `amount` away from `extent`.
pub fn shrink(extent: u32, amount: u32) -> (rest: u32)
    ensures
        rest == spec_shrink(extent, amount),
{
    if amount == UNBOUNDED {
        0
    } else if extent == UNBOUNDED {
        UNBOUNDED
    } else if extent >= amount {
        extent - amount
    } else {
        0
    }
}

/// Computes the share of `remaining` for a weight of `factor` out of `total`.
pub fn share(remaining: u32, factor: u16, total: u128) -> (part: u32)
    ensures
        part == spec_share(remaining, factor, total as int),
{
    if total == 0 || factor == 0 {
        0
    } else if remaining == UNBOUNDED {
        UNBOUNDED
    } else {
        assert(remaining * factor <= 0xFFFF_FFFF * 0xFFFF) by (nonlinear_arith)
            requires
                0 <= remaining <= 0xFFFF_FFFF,
                0 <= factor <= 0xFFFF,
        ;
        let product: u128 = (remaining as u128) * (factor as u128);
        let quotient: u128 = product / total;
        if quotient >= UNBOUNDED as u128 {
            UNBOUNDED
        } else {
            quotient as u32
        }
    }
}

/// Moves a position by an offset.
pub fn shift(position: i64, offset: i64) -> (moved: i64)
    ensures
        moved == clip_position(position + offset),
{
    let sum: i128 = position as i128 + offset as i128;
    if sum <= i64::MIN as i128 {
        i64::MIN
    } else if sum >= i64::MAX as i128 {
        i64::MAX
    } else {
        sum as i64
    }
}

/// Computes the offset that centers `extent` in `space`.
pub fn center(space: u32, extent: u32) -> (offset: i64)
    ensures
        offset == spec_center(space, extent),
{
    if space >= extent {
        ((space - extent) / 2) as i64
    } else {
        let over: u32 = extent - space;
        let half: i64 = (over / 2) as i64;
        if over % 2 == 0 {
            -half
        } else {
            -half - 1
        }
    }
}

/// Computes the offset that puts the end of `extent` at the end of `space`.
pub fn end(space: u32, extent: u32) -> (offset: i64)
    ensures
        offset == spec_end(space, extent),
{
    space as i64 - extent as i64
}

} // verus!
