use vstd::prelude::*;
use crate::image::bgr_pixel::BGRPixel;
use crate::image::bgr_pixel_buffer::BGRPixelBuffer;
use crate::image::bgr_pixel::BITS_IN_RGB_PIXEL;
use crate::image::tga_header::{TGAHeader, UNMAPPED_BGR};
use crate::image::traits::image_header::ImageHeader;
use crate::image::traits::pixel_buffer::PixelBuffer;

verus! {

/// A complete TGA image: the 18-byte header and the pixel storage it
/// describes. `to_bytes` yields the whole file image; writing it out is
/// the caller's business.
pub struct TGAImage {
    pub header: TGAHeader,
    pub data: BGRPixelBuffer,
}

impl TGAImage {
    pub fn new(width: u16, height: u16, init_pixel: &BGRPixel) -> (r: TGAImage)
        requires
            3 * (width * height) <= usize::MAX,
        ensures
            r.header == (TGAHeader {
                id_length: 0u8,
                colormap_type: 0u8,
                data_type_code: UNMAPPED_BGR,
                colormap_origin: 0u16,
                colormap_length: 0u16,
                colormap_depth: 0u8,
                x_origin: 0u16,
                y_origin: 0u16,
                width,
                height,
                bits_per_pixel: BITS_IN_RGB_PIXEL,
                image_descriptor: 0u8,
            }),
            r.data.wf(),
            r.data.width_spec() == width,
            r.data.height_spec() == height,
            forall|x: int, y: int|
                0 <= x < width && 0 <= y < height ==> r.data.pixel_at(x, y) == *init_pixel,
    {
        TGAImage {
            header: TGAHeader::get_rgb_header(width, height),
            data: BGRPixelBuffer::new(width, height, init_pixel),
        }
    }

    /// Pairs an existing header with an existing pixel buffer; their
    /// dimensions must agree.
    pub fn from_header_and_buffer(header: TGAHeader, data: BGRPixelBuffer) -> (r: TGAImage)
        requires
            header.width == data.width_spec(),
            header.height == data.height_spec(),
        ensures
            r.header == header,
            r.data == data,
    {
        TGAImage { header, data }
    }

    pub fn width(&self) -> (r: u16)
        ensures
            r == self.header.width,
    {
        self.header.width
    }

    pub fn height(&self) -> (r: u16)
        ensures
            r == self.header.height,
    {
        self.header.height
    }

    /// The whole file image: the header bytes followed by the raw pixel
    /// bytes.
    pub fn to_bytes(&self) -> (r: Vec<u8>)
        ensures
            r@ == self.header.bytes_spec() + self.data.bytes_spec(),
    {
        let mut bytes = self.header.as_bytes();
        let mut pixels = self.data.clone_buffer();
        bytes.append(&mut pixels);
        bytes
    }
}

} // verus!
