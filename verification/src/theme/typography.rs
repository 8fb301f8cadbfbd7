//! The type scale: five roles, each in three sizes, and two weights.

use vstd::prelude::*;

verus! {

/// How heavy text is set.
#[derive(Debug, Clone, Copy, PartialEq, Eq, Structural)]
pub enum Weight {
    Emphasized,
    Regular,
}

impl Default for Weight {
    fn default() -> (r: Self)
        ensures
            r == Weight::Regular,
    {
        Weight::Regular
    }
}

/// Text that names a control.
#[derive(Debug, Clone, Copy, PartialEq, Eq, Structural)]
pub enum Label {
    Small,
    Medium,
    Large,
}

/// Running text.
#[derive(Debug, Clone, Copy, PartialEq, Eq, Structural)]
pub enum Body {
    Small,
    Medium,
    Large,
}

/// The title of a section.
#[derive(Debug, Clone, Copy, PartialEq, Eq, Structural)]
pub enum Title {
    Small,
    Medium,
    Large,
}

/// The headline of a page.
#[derive(Debug, Clone, Copy, PartialEq, Eq, Structural)]
pub enum Headline {
    Small,
    Medium,
    Large,
}

/// The largest text on a screen.
#[derive(Debug, Clone, Copy, PartialEq, Eq, Structural)]
pub enum Display {
    Small,
    Medium,
    Large,
}

impl Label {
    /// The size in pixels.
    pub open spec fn pixels(self) -> u32 {
        match self {
            Label::Small => 11,
            Label::Medium => 12,
            Label::Large => 14,
        }
    }
}

impl Body {
    /// The size in pixels.
    pub open spec fn pixels(self) -> u32 {
        match self {
            Body::Small => 12,
            Body::Medium => 14,
            Body::Large => 16,
        }
    }
}

impl Title {
    /// The size in pixels.
    pub open spec fn pixels(self) -> u32 {
        match self {
            Title::Small => 14,
            Title::Medium => 16,
            Title::Large => 22,
        }
    }
}

impl Headline {
    /// The size in pixels.
    pub open spec fn pixels(self) -> u32 {
        match self {
            Headline::Small => 24,
            Headline::Medium => 28,
            Headline::Large => 32,
        }
    }
}

impl Display {
    /// The size in pixels.
    pub open spec fn pixels(self) -> u32 {
        match self {
            Display::Small => 36,
            Display::Medium => 45,
            Display::Large => 57,
        }
    }
}

impl From<Label> for u32 {
    fn from(value: Label) -> (r: u32) {
        match value {
            Label::Small => 11,
            Label::Medium => 12,
            Label::Large => 14,
        }
    }
}

impl vstd::std_specs::convert::FromSpecImpl<Label> for u32 {
    open spec fn obeys_from_spec() -> bool {
        true
    }

    open spec fn from_spec(value: Label) -> u32 {
        value.pixels()
    }
}

impl From<Body> for u32 {
    fn from(value: Body) -> (r: u32) {
        match value {
            Body::Small => 12,
            Body::Medium => 14,
            Body::Large => 16,
        }
    }
}

impl vstd::std_specs::convert::FromSpecImpl<Body> for u32 {
    open spec fn obeys_from_spec() -> bool {
        true
    }

    open spec fn from_spec(value: Body) -> u32 {
        value.pixels()
    }
}

impl From<Title> for u32 {
    fn from(value: Title) -> (r: u32) {
        match value {
            Title::Small => 14,
            Title::Medium => 16,
            Title::Large => 22,
        }
    }
}

impl vstd::std_specs::convert::FromSpecImpl<Title> for u32 {
    open spec fn obeys_from_spec() -> bool {
        true
    }

    open spec fn from_spec(value: Title) -> u32 {
        value.pixels()
    }
}

impl From<Headline> for u32 {
    fn from(value: Headline) -> (r: u32) {
        match value {
            Headline::Small => 24,
            Headline::Medium => 28,
            Headline::Large => 32,
        }
    }
}

impl vstd::std_specs::convert::FromSpecImpl<Headline> for u32 {
    open spec fn obeys_from_spec() -> bool {
        true
    }

    open spec fn from_spec(value: Headline) -> u32 {
        value.pixels()
    }
}

impl From<Display> for u32 {
    fn from(value: Display) -> (r: u32) {
        match value {
            Display::Small => 36,
            Display::Medium => 45,
            Display::Large => 57,
        }
    }
}

impl vstd::std_specs::convert::FromSpecImpl<Display> for u32 {
    open spec fn obeys_from_spec() -> bool {
        true
    }

    open spec fn from_spec(value: Display) -> u32 {
        value.pixels()
    }
}

} // verus!
