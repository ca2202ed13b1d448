use vstd::prelude::*;

verus! {

/// Clamps one additive channel sum to the 8-bit range; shading sums
/// light contributions per channel and must never exceed 255.
pub open spec fn clamped_channel(v: int) -> int {
    if v < 255 {
        v
    } else {
        255
    }
}

/// An RGB color with 8-bit channels, the pixel value type of the renderer.
#[derive(Clone, Copy, Debug, PartialEq, Eq, Structural)]
pub struct Color {
    pub r: u8,
    pub g: u8,
    pub b: u8,
}

impl Color {
    pub fn new(r: u8, g: u8, b: u8) -> (c: Color)
        ensures
            c == (Color { r, g, b }),
    {
        Color { r, g, b }
    }

    /// Packs the channels into one 24-bit RGB integer: red in the high
    /// byte, then green, then blue, as the framebuffer expects.
    pub fn to_u32(&self) -> (packed: u32)
        ensures
            packed == self.r as int * 0x10000 + self.g as int * 0x100 + self.b as int,
            packed <= 0xFFFFFF,
    {
        let r = self.r as u32;
        let g = self.g as u32;
        let b = self.b as u32;
        let packed = (r << 16) | (g << 8) | b;
        proof {
            assert((r << 16) | (g << 8) | b == r * 0x10000 + g * 0x100 + b) by (bit_vector)
                requires
                    r < 0x100,
                    g < 0x100,
                    b < 0x100,
            ;
        }
        packed
    }

    /// Adds another color channel by channel, clamping each sum to 255:
    /// the additive accumulation rule for light contributions.
    pub fn saturating_add(&self, other: Color) -> (c: Color)
        ensures
            c.r == clamped_channel(self.r + other.r),
            c.g == clamped_channel(self.g + other.g),
            c.b == clamped_channel(self.b + other.b),
    {
        Color {
            r: add_channel(self.r, other.r),
            g: add_channel(self.g, other.g),
            b: add_channel(self.b, other.b),
        }
    }
}

/// One clamped channel sum, in a widened type so the addition cannot overflow.
fn add_channel(a: u8, b: u8) -> (r: u8)
    ensures
        r == clamped_channel(a + b),
{
    let sum = a as u16 + b as u16;
    if sum > 255 {
        255
    } else {
        sum as u8
    }
}

} // verus!
