use vstd::prelude::*;

verus! {

/// A color value with three 8-bit channels, whatever its storage order.
pub trait Pixel: Sized {
    /// The red, green and blue channels, in that order.
    spec fn rgb_spec(&self) -> (u8, u8, u8);

    fn from_rgb(r: u8, g: u8, b: u8) -> (p: Self)
        ensures
            p.rgb_spec() == (r, g, b),
    ;

    fn white() -> (p: Self)
        ensures
            p.rgb_spec() == (255u8, 255u8, 255u8),
    {
        Self::from_rgb(255, 255, 255)
    }

    fn blue() -> (p: Self)
        ensures
            p.rgb_spec() == (0u8, 0u8, 255u8),
    {
        Self::from_rgb(0, 0, 255)
    }

    fn black() -> (p: Self)
        ensures
            p.rgb_spec() == (0u8, 0u8, 0u8),
    {
        Self::from_rgb(0, 0, 0)
    }

    fn red() -> (p: Self)
        ensures
            p.rgb_spec() == (255u8, 0u8, 0u8),
    {
        Self::from_rgb(255, 0, 0)
    }

    fn green() -> (p: Self)
        ensures
            p.rgb_spec() == (0u8, 255u8, 0u8),
    {
        Self::from_rgb(0, 255, 0)
    }
}

} // verus!
