use vstd::prelude::*;

verus! {

/// Number of bits a three-channel pixel occupies.
pub const BITS_IN_RGB_PIXEL: u8 = 24;

/// A color value with three 8-bit channels. An earlier shape of the
/// interface in `crate::image::traits::pixel`, kept for the TGA pixel.
pub trait Pixel: Sized {
    /// The red, green and blue channels, in that order.
    spec fn rgb_spec(&self) -> (u8, u8, u8);

    fn from_rgb(r: u8, g: u8, b: u8) -> (p: Self)
        ensures
            p.rgb_spec() == (r, g, b),
    ;

    fn white() -> (p: Self)
        ensures
            p.rgb_spec() == (255u8, 255u8, 255u8),
    {
        Self::from_rgb(255, 255, 255)
    }

    fn blue() -> (p: Self)
        ensures
            p.rgb_spec() == (0u8, 0u8, 255u8),
    {
        Self::from_rgb(0, 0, 255)
    }

    fn black() -> (p: Self)
        ensures
            p.rgb_spec() == (0u8, 0u8, 0u8),
    {
        Self::from_rgb(0, 0, 0)
    }

    fn red() -> (p: Self)
        ensures
            p.rgb_spec() == (255u8, 0u8, 0u8),
    {
        Self::from_rgb(255, 0, 0)
    }

    fn green() -> (p: Self)
        ensures
            p.rgb_spec() == (0u8, 255u8, 0u8),
    {
        Self::from_rgb(0, 255, 0)
    }
}

/// A pixel of a TGA image, stored in blue, green, red channel order.
#[derive(Clone, Copy, Eq, PartialEq, Debug, Structural)]
pub struct TGAPixel {
    pub b: u8,
    pub g: u8,
    pub r: u8,
}

impl Pixel for TGAPixel {
    open spec fn rgb_spec(&self) -> (u8, u8, u8) {
        (self.r, self.g, self.b)
    }

    fn from_rgb(r: u8, g: u8, b: u8) -> (p: Self) {
        TGAPixel { b, g, r }
    }
}

impl TGAPixel {
    /// The pixel's channels walked in storage order: blue, green, red.
    pub fn into_iter(self) -> (r: PixelIntoIterator)
        ensures
            r.pixel_spec() == self,
            r.index_spec() == 0,
    {
        PixelIntoIterator { pixel: self, index: 0 }
    }

    /// The same walk over a borrowed pixel.
    pub fn iter(&self) -> (r: PixelIterator<'_>)
        ensures
            r.pixel_spec() == *self,
            r.index_spec() == 0,
    {
        PixelIterator { pixel: self, index: 0 }
    }

    /// Builds a pixel from the first three bytes of a slice, taken in
    /// storage order: blue, green, red.
    pub fn from_iter(bytes: &[u8]) -> (p: Self)
        requires
            bytes@.len() >= 3,
        ensures
            p == (TGAPixel { b: bytes@[0], g: bytes@[1], r: bytes@[2] }),
    {
        TGAPixel { b: bytes[0], g: bytes[1], r: bytes[2] }
    }
}

/// Walks an owned pixel's channels in storage order.
pub struct PixelIntoIterator {
    pixel: TGAPixel,
    index: usize,
}

impl PixelIntoIterator {
    pub closed spec fn pixel_spec(&self) -> TGAPixel {
        self.pixel
    }

    pub closed spec fn index_spec(&self) -> int {
        self.index as int
    }

    pub fn next(&mut self) -> (r: Option<u8>)
        ensures
            final(self).pixel_spec() == old(self).pixel_spec(),
            r == channel_at(old(self).pixel_spec(), old(self).index_spec()),
            r is Some ==> final(self).index_spec() == old(self).index_spec() + 1,
            r is None ==> final(self).index_spec() == old(self).index_spec(),
    {
        let result: u8 = match self.index {
            0 => self.pixel.b,
            1 => self.pixel.g,
            2 => self.pixel.r,
            _ => {
                return None;
            },
        };
        self.index = self.index + 1;
        Some(result)
    }
}

/// Walks a borrowed pixel's channels in storage order.
pub struct PixelIterator<'a> {
    pixel: &'a TGAPixel,
    index: usize,
}

impl<'a> PixelIterator<'a> {
    pub closed spec fn pixel_spec(&self) -> TGAPixel {
        *self.pixel
    }

    pub closed spec fn index_spec(&self) -> int {
        self.index as int
    }

    pub fn next(&mut self) -> (r: Option<u8>)
        ensures
            final(self).pixel_spec() == old(self).pixel_spec(),
            r == channel_at(old(self).pixel_spec(), old(self).index_spec()),
            r is Some ==> final(self).index_spec() == old(self).index_spec() + 1,
            r is None ==> final(self).index_spec() == old(self).index_spec(),
    {
        let result: u8 = match self.index {
            0 => self.pixel.b,
            1 => self.pixel.g,
            2 => self.pixel.r,
            _ => {
                return None;
            },
        };
        self.index = self.index + 1;
        Some(result)
    }
}

/// The channel an iterator yields at a given position: blue, green, red,
/// then nothing.
pub open spec fn channel_at(p: TGAPixel, index: int) -> Option<u8> {
    if index == 0 {
        Some(p.b)
    } else if index == 1 {
        Some(p.g)
    } else if index == 2 {
        Some(p.r)
    } else {
        None
    }
}

} // verus!
