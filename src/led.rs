//! Colours of the keyboard's status light.
use vstd::prelude::*;

verus! {

/// A colour as red, green and blue intensities.
#[derive(Clone, Copy, Debug, PartialEq, Eq, Structural)]
pub struct Color(pub u8, pub u8, pub u8);

impl Color {
    /// The colour dimmed to `brightness` 256ths of its intensity.
    pub fn set_brightness(self, brightness: u8) -> (r: Color)
        ensures
            r.0 == self.0 as int * brightness as int / 256,
            r.1 == self.1 as int * brightness as int / 256,
            r.2 == self.2 as int * brightness as int / 256,
    {
        Color(
            scale(self.0, brightness),
            scale(self.1, brightness),
            scale(self.2, brightness),
        )
    }
}

fn scale(c: u8, brightness: u8) -> (r: u8)
    ensures
        r == c as int * brightness as int / 256,
{
    proof {
        assert(c as int * brightness as int <= 255 * 255) by (nonlinear_arith)
            requires
                c <= 255,
                brightness <= 255,
        ;
    }
    let p = c as u16 * brightness as u16;
    (p / 256) as u8
}

/// The colour at position `byte` of a wheel that runs from red through
/// blue and green back to red.
pub open spec fn color_wheel_spec(byte: u8) -> Color {
    if byte <= 84 {
        Color((255 - byte * 3) as u8, 0, (byte * 3) as u8)
    } else if byte <= 169 {
        Color(0, ((byte - 85) * 3) as u8, (255 - (byte - 85) * 3) as u8)
    } else {
        Color(((byte - 170) * 3) as u8, (255 - (byte - 170) * 3) as u8, 0)
    }
}

/// The colour at position `byte` of the colour wheel.
pub fn color_wheel(byte: u8) -> (r: Color)
    ensures
        r == color_wheel_spec(byte),
{
    if byte <= 84 {
        Color(255 - byte * 3, 0, byte * 3)
    } else if byte <= 169 {
        Color(0, (byte - 85) * 3, 255 - (byte - 85) * 3)
    } else {
        Color((byte - 170) * 3, 255 - (byte - 170) * 3, 0)
    }
}

} // verus!
