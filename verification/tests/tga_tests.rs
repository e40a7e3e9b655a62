use mini_renderer::image::bgr_pixel::BGRPixel;
use mini_renderer::image::bgr_pixel_buffer::BGRPixelBuffer;
use mini_renderer::image::tga_header::{get_high_bits, get_low_bits, TGAHeader};
use mini_renderer::image::tga_image::TGAImage;
use mini_renderer::image::traits::image_header::ImageHeader;
use mini_renderer::image::traits::pixel::Pixel;
use mini_renderer::image::traits::pixel_buffer::PixelBuffer;

#[test]
fn get_low_bits_works() {
    let bit_field = 0b1111_1111_0000_0000u16;
    assert_eq!(get_low_bits(bit_field), 0b0000_0000u8);
}

#[test]
fn get_high_bits_works() {
    let bit_field = 0b1111_1111_0000_0000u16;
    assert_eq!(get_high_bits(bit_field), 0b1111_1111u8);
}

#[test]
fn get_rgb_header_bytes_work() {
    let bytes = TGAHeader::get_rgb_header(1, 1).as_bytes();
    assert_eq!(
        bytes,
        vec![
            0u8,  // id_length       u8
            0u8,  // colormap type   u8
            2u8,  // data_type_code  u8
            0u8,  // colormap_origin u16
            0u8,  // colormap_origin u16
            0u8,  // colormap_length u16
            0u8,  // colormap_length u16
            0u8,  // colormap_depth  u8
            0u8,  // x_origin        u16
            0u8,  // x_origin        u16
            0u8,  // y_origin        u16
            0u8,  // y_origin        u16
            1u8,  // width           u16
            0u8,  // width           u16
            1u8,  // height          u16
            0u8,  // height          u16
            24u8, // bits_per_pixel  u8
            0u8,  // image_desc      u8
        ]
    );
}

#[test]
fn new_image_header_should_have_correct_width_and_height() {
    let image = TGAImage::new(1, 2, &Pixel::black());
    assert_eq!(image.width(), 1);
    assert_eq!(image.height(), 2)
}

#[test]
fn should_be_able_to_initialize_from_pixel_buffer() {
    let image = TGAImage::from_header_and_buffer(
        TGAHeader::get_rgb_header(3, 3),
        BGRPixelBuffer::new(3, 3, &BGRPixel::white()),
    );
    assert_eq!(
        image.data.as_bytes(),
        TGAImage::new(3, 3, &BGRPixel::white()).data.as_bytes()
    );
    assert_eq!(
        image.header.as_bytes(),
        TGAHeader::get_rgb_header(3, 3).as_bytes()
    );
}

#[test]
fn should_be_able_to_write_image() {
    let image = TGAImage::new(1, 2, &Pixel::white());
    let sync = image.to_bytes();
    let original_data: Vec<u8> = image
        .header
        .as_bytes()
        .iter()
        .cloned()
        .chain(image.data.as_bytes().iter().cloned())
        .collect::<Vec<_>>();
    assert!(sync.len() > 0);
    assert_eq!(sync, original_data)
}
