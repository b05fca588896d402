//! Quantized pixels, the values the output sink consumes.

use vstd::prelude::*;

verus! {

/// One raster pixel: red, green and blue channels already gamma-corrected
/// and quantized into the sink's integer range.
#[derive(Clone, Copy, PartialEq, Eq, Structural, Debug)]
pub struct Pixel {
    /// Red channel, `0 <= red < max color value`.
    pub red: u32,
    /// Green channel, `0 <= green < max color value`.
    pub green: u32,
    /// Blue channel, `0 <= blue < max color value`.
    pub blue: u32,
}

/// Every channel lies below the sink's color scale: the sink accepts
/// exactly the integers `0 ..= max_color - 1` per channel.
pub open spec fn pixel_in_range(p: Pixel, max_color: u32) -> bool {
    p.red < max_color && p.green < max_color && p.blue < max_color
}

impl Pixel {
    /// Build a pixel from its three channels.
    pub fn new(red: u32, green: u32, blue: u32) -> (p: Pixel)
        ensures
            p == (Pixel { red, green, blue }),
    {
        Pixel { red, green, blue }
    }

    /// Report whether every channel lies below the given color scale.
    pub fn in_range(&self, max_color: u32) -> (r: bool)
        ensures
            r == pixel_in_range(*self, max_color),
    {
        self.red < max_color && self.green < max_color && self.blue < max_color
    }
}

} // verus!
