//! The shapes of buttons.

use vstd::prelude::*;

verus! {

/// How the corners of a button are rounded.
#[derive(Debug, Clone, Copy, PartialEq, Eq, Structural)]
pub enum ButtonShape {
    Pill,
    Regular,
    Circular,
}

impl ButtonShape {
    /// The corner radius in pixels. A circular button asks for the largest
    /// radius there is, and the renderer cuts it down to half the button.
    pub open spec fn corner_radius(self) -> u32 {
        match self {
            ButtonShape::Pill => 10,
            ButtonShape::Regular => 8,
            ButtonShape::Circular => 0x7fff_ffff,
        }
    }

    /// Computes [`ButtonShape::corner_radius`].
    pub fn radius(self) -> (r: u32)
        ensures
            r == self.corner_radius(),
    {
        match self {
            ButtonShape::Pill => 10,
            ButtonShape::Regular => 8,
            ButtonShape::Circular => 0x7fff_ffff,
        }
    }
}

} // verus!
