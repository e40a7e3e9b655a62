use vstd::prelude::*;
use crate::image::traits::pixel::Pixel;

verus! {

/// Number of bits a three-channel pixel occupies.
pub const BITS_IN_RGB_PIXEL: u8 = 24;

/// A pixel stored in blue, green, red channel order.
#[derive(Clone, Copy, Eq, PartialEq, Debug, Structural)]
pub struct BGRPixel {
    pub b: u8,
    pub g: u8,
    pub r: u8,
}

impl Pixel for BGRPixel {
    open spec fn rgb_spec(&self) -> (u8, u8, u8) {
        (self.r, self.g, self.b)
    }

    fn from_rgb(r: u8, g: u8, b: u8) -> (p: Self) {
        BGRPixel { b, g, r }
    }
}

impl BGRPixel {
    /// The pixel's channels walked in storage order: blue, green, red.
    pub fn into_iter(self) -> (r: PixelIntoIterator)
        ensures
            r.pixel_spec() == self,
            r.index_spec() == 0,
    {
        PixelIntoIterator { pixel: self, index: 0 }
    }

    /// The same walk over a borrowed pixel.
    pub fn iter(&self) -> (r: PixelIterator<'_>)
        ensures
            r.pixel_spec() == *self,
            r.index_spec() == 0,
    {
        PixelIterator { pixel: self, index: 0 }
    }

    /// Builds a pixel from the first three bytes, taken in storage order:
    /// blue, green, red.
    pub fn from_iter(bytes: Vec<u8>) -> (p: Self)
        requires
            bytes.len() >= 3,
        ensures
            p == (BGRPixel { b: bytes[0], g: bytes[1], r: bytes[2] }),
    {
        BGRPixel { b: bytes[0], g: bytes[1], r: bytes[2] }
    }
}

/// Walks an owned pixel's channels in storage order.
pub struct PixelIntoIterator {
    pixel: BGRPixel,
    index: usize,
}

impl PixelIntoIterator {
    pub closed spec fn pixel_spec(&self) -> BGRPixel {
        self.pixel
    }

    pub closed spec fn index_spec(&self) -> int {
        self.index as int
    }

    pub fn next(&mut self) -> (r: Option<u8>)
        ensures
            final(self).pixel_spec() == old(self).pixel_spec(),
            r == channel_at(old(self).pixel_spec(), old(self).index_spec()),
            r is Some ==> final(self).index_spec() == old(self).index_spec() + 1,
            r is None ==> final(self).index_spec() == old(self).index_spec(),
    {
        let result: u8 = match self.index {
            0 => self.pixel.b,
            1 => self.pixel.g,
            2 => self.pixel.r,
            _ => {
                return None;
            },
        };
        self.index = self.index + 1;
        Some(result)
    }
}

/// Walks a borrowed pixel's channels in storage order.
pub struct PixelIterator<'a> {
    pixel: &'a BGRPixel,
    index: usize,
}

impl<'a> PixelIterator<'a> {
    pub closed spec fn pixel_spec(&self) -> BGRPixel {
        *self.pixel
    }

    pub closed spec fn index_spec(&self) -> int {
        self.index as int
    }

    pub fn next(&mut self) -> (r: Option<u8>)
        ensures
            final(self).pixel_spec() == old(self).pixel_spec(),
            r == channel_at(old(self).pixel_spec(), old(self).index_spec()),
            r is Some ==> final(self).index_spec() == old(self).index_spec() + 1,
            r is None ==> final(self).index_spec() == old(self).index_spec(),
    {
        let result: u8 = match self.index {
            0 => self.pixel.b,
            1 => self.pixel.g,
            2 => self.pixel.r,
            _ => {
                return None;
            },
        };
        self.index = self.index + 1;
        Some(result)
    }
}

/// The channel an iterator yields at a given position: blue, green, red,
/// then nothing.
pub open spec fn channel_at(p: BGRPixel, index: int) -> Option<u8> {
    if index == 0 {
        Some(p.b)
    } else if index == 1 {
        Some(p.g)
    } else if index == 2 {
        Some(p.r)
    } else {
        None
    }
}

} // verus!
