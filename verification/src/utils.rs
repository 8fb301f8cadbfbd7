//! Small geometry helpers.

use crate::applet::interface::Direction;
use vstd::prelude::*;

verus! {

/// The thickness of a panel attached along `direction`: panels on the left or
/// right edge are `size` wide, panels on the top or bottom edge are `size`
/// high. The other extent is left at zero for the compositor to stretch.
pub open spec fn spec_size_from_direction(direction: Direction, size: u32) -> (u32, u32) {
    match direction {
        Direction::Left | Direction::Right => (size, 0u32),
        Direction::Top | Direction::Bottom => (0u32, size),
    }
}

/// Computes [`spec_size_from_direction`].
pub fn size_from_direction(direction: &Direction, size: u32) -> (r: (u32, u32))
    ensures
        r == spec_size_from_direction(*direction, size),
{
    match direction {
        Direction::Left | Direction::Right => (size, 0),
        Direction::Top | Direction::Bottom => (0, size),
    }
}

} // verus!
