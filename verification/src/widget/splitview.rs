//! A view split into a sidebar and content.

use vstd::prelude::*;

verus! {

/// The side of a split view that its sidebar stands on.
#[derive(Debug, Clone, Copy, PartialEq, Eq, Structural)]
pub enum SidebarPosition {
    Start,
    End,
}

impl SidebarPosition {
    /// Whether the sidebar comes before the content when the two are laid
    /// out in reading order.
    pub fn sidebar_first(self) -> (r: bool)
        ensures
            r == (self == SidebarPosition::Start),
    {
        match self {
            SidebarPosition::Start => true,
            SidebarPosition::End => false,
        }
    }
}

} // verus!
