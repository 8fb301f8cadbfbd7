//! The plain choices of the panel's look: which theme, which type scale,
//! which button shape. Colours are computed elsewhere.

pub mod button;
pub mod typography;

use vstd::prelude::*;

verus! {

/// Which theme the panel shows.
#[derive(Debug, Clone)]
pub enum ThemeType {
    Dark,
    Light,
    /// Dark or light, as the desktop prefers.
    System,
    /// A theme of the user's own, by name.
    Custom(String),
}

/// What the desktop says of dark and light.
#[derive(Debug, Clone, Copy, PartialEq, Eq, Structural)]
pub enum ColorScheme {
    NoPreference,
    Light,
    Dark,
}

impl ThemeType {
    /// Whether the theme is drawn from the dark tones. A theme that follows
    /// the desktop is dark only where the desktop asks for dark.
    pub open spec fn dark(self, scheme: ColorScheme) -> bool {
        self is Dark || (self is System && scheme == ColorScheme::Dark)
    }

    /// Computes [`ThemeType::dark`]. Themes of the user's own have no tones
    /// to choose from, and are not to be asked.
    pub fn is_dark(&self, scheme: ColorScheme) -> (r: bool)
        requires
            !(self is Custom),
        ensures
            r == self.dark(scheme),
    {
        match self {
            ThemeType::Dark => true,
            ThemeType::Light => false,
            ThemeType::System => match scheme {
                ColorScheme::Dark => true,
                _ => false,
            },
            ThemeType::Custom(_) => false,
        }
    }
}

} // verus!
