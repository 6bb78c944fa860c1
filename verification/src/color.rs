//! 24-bit terminal colors.

use vstd::prelude::*;

verus! {

/// A truecolor value (red, green, blue).
#[derive(Clone, Copy, Debug, PartialEq, Eq, Structural)]
pub struct Color {
    pub r: u8,
    pub g: u8,
    pub b: u8,
}

impl Color {
    /// Builds a color from its three channels.
    pub fn rgb(r: u8, g: u8, b: u8) -> (c: Color)
        ensures
            c == (Color { r, g, b }),
    {
        Color { r, g, b }
    }

    /// The color a freshly allocated entity slot carries.
    pub open spec fn spec_default() -> Color {
        Color { r: 0, g: 0, b: 0 }
    }
}

impl Default for Color {
    fn default() -> (c: Color)
        ensures
            c == Color::spec_default(),
    {
        Color { r: 0, g: 0, b: 0 }
    }
}

} // verus!
