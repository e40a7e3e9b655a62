use mini_renderer::image::bgr_pixel::BGRPixel;
use mini_renderer::image::pixel::{Pixel as TgaPixelTrait, TGAPixel};
use mini_renderer::image::traits::pixel::Pixel;

#[test]
fn bgr_pixel_from_rgb_works_with_same_values() {
    let pix = BGRPixel::from_rgb(0, 0, 0);
    assert_eq!(pix.r, 0);
    assert_eq!(pix.g, 0);
    assert_eq!(pix.b, 0);
}

#[test]
fn bgr_pixel_from_rgb_works_with_different_values() {
    let pix = BGRPixel::from_rgb(10, 20, 30);
    assert_eq!(pix.r, 10);
    assert_eq!(pix.g, 20);
    assert_eq!(pix.b, 30);
}

#[test]
fn bgr_pixel_default_interface_method_white_works() {
    assert_eq!(BGRPixel::white(), BGRPixel::from_rgb(255, 255, 255));
}

#[test]
fn bgr_pixel_default_interface_method_black_works() {
    assert_eq!(BGRPixel::black(), BGRPixel::from_rgb(0, 0, 0));
}

#[test]
fn bgr_pixel_default_interface_method_blue_works() {
    assert_eq!(BGRPixel::blue(), BGRPixel::from_rgb(0, 0, 255));
}

#[test]
fn bgr_pixel_default_interface_method_red_works() {
    assert_eq!(BGRPixel::red(), BGRPixel::from_rgb(255, 0, 0));
}

#[test]
fn bgr_pixel_default_interface_method_green_works() {
    assert_eq!(BGRPixel::green(), BGRPixel::from_rgb(0, 255, 0));
}

#[test]
fn bgr_pixel_into_iter_works_for_pixel() {
    let pixel = BGRPixel::from_rgb(1, 2, 3);
    let mut rgb = Vec::with_capacity(3);
    let mut it = pixel.into_iter();
    while let Some(i) = it.next() {
        rgb.push(i);
    }
    assert_eq!(rgb, [3, 2, 1]);
}

#[test]
fn bgr_pixel_into_iter_works_for_borrowed_pixel() {
    let pixel = BGRPixel::from_rgb(1, 2, 3);
    let mut rgb = Vec::with_capacity(3);
    let mut it = pixel.iter();
    while let Some(i) = it.next() {
        rgb.push(i);
    }
    assert_eq!(rgb, [3, 2, 1]);
}

#[test]
fn bgr_pixel_can_create_pixel_from_slice() {
    let pixel = BGRPixel::from_iter(vec![1u8, 2u8, 3u8]);
    assert_eq!(pixel, BGRPixel::from_rgb(3, 2, 1));
}

#[test]
fn pixel_from_rgb_works_with_same_values() {
    let pix = TGAPixel::from_rgb(0, 0, 0);
    assert_eq!(pix.r, 0);
    assert_eq!(pix.g, 0);
    assert_eq!(pix.b, 0);
}

#[test]
fn pixel_from_rgb_works_with_different_values() {
    let pix = TGAPixel::from_rgb(10, 20, 30);
    assert_eq!(pix.r, 10);
    assert_eq!(pix.g, 20);
    assert_eq!(pix.b, 30);
}

#[test]
fn pixel_default_interface_method_white_works() {
    assert_eq!(TGAPixel::white(), TGAPixel::from_rgb(255, 255, 255));
}

#[test]
fn pixel_default_interface_method_black_works() {
    assert_eq!(TGAPixel::black(), TGAPixel::from_rgb(0, 0, 0));
}

#[test]
fn pixel_default_interface_method_blue_works() {
    assert_eq!(TGAPixel::blue(), TGAPixel::from_rgb(0, 0, 255));
}

#[test]
fn pixel_default_interface_method_red_works() {
    assert_eq!(TGAPixel::red(), TGAPixel::from_rgb(255, 0, 0));
}

#[test]
fn pixel_default_interface_method_green_works() {
    assert_eq!(TGAPixel::green(), TGAPixel::from_rgb(0, 255, 0));
}

#[test]
fn pixel_into_iter_works_for_pixel() {
    let pixel = TGAPixel::from_rgb(1, 2, 3);
    let mut rgb = Vec::with_capacity(3);
    let mut it = pixel.into_iter();
    while let Some(i) = it.next() {
        rgb.push(i);
    }
    assert_eq!(rgb, [3, 2, 1]);
}

#[test]
fn pixel_into_iter_works_for_borrowed_pixel() {
    let pixel = TGAPixel::from_rgb(1, 2, 3);
    let mut rgb = Vec::with_capacity(3);
    let mut it = pixel.iter();
    while let Some(i) = it.next() {
        rgb.push(i);
    }
    assert_eq!(rgb, [3, 2, 1]);
}

#[test]
fn pixel_can_create_pixel_from_slice() {
    let pixel = TGAPixel::from_iter(&[1u8, 2u8, 3u8]);
    assert_eq!(pixel, TGAPixel::from_rgb(3, 2, 1));
}
