use vstd::prelude::*;
use crate::image::bgr_pixel::BITS_IN_RGB_PIXEL;
use crate::image::traits::image_header::ImageHeader;

verus! {

/// TGA data type code for a color-mapped image.
pub const COLOR_MAPPED_IMAGE: u8 = 1;

/// TGA data type code for an unmapped BGR image.
pub const UNMAPPED_BGR: u8 = 2;

/// The 18-byte TGA file header. Multi-byte fields are serialized
/// little-endian, low byte first.
pub struct TGAHeader {
    pub id_length: u8,
    pub colormap_type: u8,
    pub data_type_code: u8,
    pub colormap_origin: u16,
    pub colormap_length: u16,
    pub colormap_depth: u8,
    pub x_origin: u16,
    pub y_origin: u16,
    pub width: u16,
    pub height: u16,
    pub bits_per_pixel: u8,
    pub image_descriptor: u8,
}

/// The low byte of a 16-bit field.
pub fn get_low_bits(bit_field: u16) -> (r: u8)
    ensures
        r == bit_field % 256,
{
    (bit_field % 256) as u8
}

/// The high byte of a 16-bit field.
pub fn get_high_bits(bit_field: u16) -> (r: u8)
    ensures
        r == bit_field / 256,
{
    proof {
        assert(bit_field >> 8 == bit_field / 256) by (bit_vector);
    }
    (bit_field >> 8) as u8
}

impl TGAHeader {
    /// An all-zero header except for the given dimensions, the unmapped
    /// BGR type code and 24 bits per pixel.
    pub fn get_rgb_header(width: u16, height: u16) -> (r: TGAHeader)
        ensures
            r == (TGAHeader {
                id_length: 0u8,
                colormap_type: 0u8,
                data_type_code: UNMAPPED_BGR,
                colormap_origin: 0u16,
                colormap_length: 0u16,
                colormap_depth: 0u8,
                x_origin: 0u16,
                y_origin: 0u16,
                width,
                height,
                bits_per_pixel: BITS_IN_RGB_PIXEL,
                image_descriptor: 0u8,
            }),
    {
        TGAHeader {
            id_length: 0,
            colormap_type: 0,
            data_type_code: UNMAPPED_BGR,
            colormap_origin: 0,
            colormap_length: 0,
            colormap_depth: 0,
            x_origin: 0,
            y_origin: 0,
            width,
            height,
            bits_per_pixel: BITS_IN_RGB_PIXEL,
            image_descriptor: 0,
        }
    }
}

impl ImageHeader for TGAHeader {
    /// The 18 header bytes in file order; note the colormap length is
    /// written before the colormap origin.
    open spec fn bytes_spec(&self) -> Seq<u8> {
        seq![
            self.id_length,
            self.colormap_type,
            self.data_type_code,
            (self.colormap_length % 256) as u8,
            (self.colormap_length / 256) as u8,
            (self.colormap_origin % 256) as u8,
            (self.colormap_origin / 256) as u8,
            self.colormap_depth,
            (self.x_origin % 256) as u8,
            (self.x_origin / 256) as u8,
            (self.y_origin % 256) as u8,
            (self.y_origin / 256) as u8,
            (self.width % 256) as u8,
            (self.width / 256) as u8,
            (self.height % 256) as u8,
            (self.height / 256) as u8,
            self.bits_per_pixel,
            self.image_descriptor,
        ]
    }

    fn as_bytes(&self) -> (r: Vec<u8>) {
        let mut bytes: Vec<u8> = Vec::new();
        bytes.push(self.id_length);
        bytes.push(self.colormap_type);
        bytes.push(self.data_type_code);
        bytes.push(get_low_bits(self.colormap_length));
        bytes.push(get_high_bits(self.colormap_length));
        bytes.push(get_low_bits(self.colormap_origin));
        bytes.push(get_high_bits(self.colormap_origin));
        bytes.push(self.colormap_depth);
        bytes.push(get_low_bits(self.x_origin));
        bytes.push(get_high_bits(self.x_origin));
        bytes.push(get_low_bits(self.y_origin));
        bytes.push(get_high_bits(self.y_origin));
        bytes.push(get_low_bits(self.width));
        bytes.push(get_high_bits(self.width));
        bytes.push(get_low_bits(self.height));
        bytes.push(get_high_bits(self.height));
        bytes.push(self.bits_per_pixel);
        bytes.push(self.image_descriptor);
        proof {
            assert(bytes@ =~= self.bytes_spec());
        }
        bytes
    }
}

} // verus!
