//! The color value used for the accent-color preference.

use vstd::prelude::*;

verus! {

/// A color in the sRGB color space with 8 bits per channel.
///
/// Native sources report accent colors in various encodings (packed ARGB
/// integers, floating-point components, CSS serializations); the platform
/// layer quantizes them all to this form, which every supported source can
/// represent exactly for the colors it actually emits.
#[derive(Debug, Clone, Copy, PartialEq, Eq, Structural)]
pub struct Srgba {
    pub red: u8,
    pub green: u8,
    pub blue: u8,
    pub alpha: u8,
}

impl Srgba {
    /// Builds a color from `[red, green, blue, alpha]` channels.
    pub fn from_u8_array(color: [u8; 4]) -> (r: Srgba)
        ensures
            r.red == color[0],
            r.green == color[1],
            r.blue == color[2],
            r.alpha == color[3],
    {
        Srgba { red: color[0], green: color[1], blue: color[2], alpha: color[3] }
    }

    /// Returns the channels as `[red, green, blue, alpha]`.
    pub fn to_u8_array(self) -> (r: [u8; 4])
        ensures
            r[0] == self.red,
            r[1] == self.green,
            r[2] == self.blue,
            r[3] == self.alpha,
    {
        [self.red, self.green, self.blue, self.alpha]
    }
}

} // verus!
