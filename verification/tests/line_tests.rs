use mini_renderer::image::bgr_pixel::BGRPixel;
use mini_renderer::image::bgr_pixel_buffer::BGRPixelBuffer;
use mini_renderer::image::traits::pixel::Pixel;
use mini_renderer::image::traits::pixel_buffer::PixelBuffer;
use mini_renderer::line_drawer::{lerp, LineDrawer};
use mini_renderer::point::Point3;
use mini_renderer::z_buffer::ZBuffer;

#[test]
fn draw_a_zero_length_line_should_draw_a_dot() {
    let mut buffer = BGRPixelBuffer::new(2, 2, &Pixel::black());
    let mut z_buffer = ZBuffer::new(2, 2);
    LineDrawer::new(Point3::new(0, 0, 0), Point3::new(0, 0, 0))
        .draw_line(&BGRPixel::from_rgb(1, 1, 1), &mut buffer, &mut z_buffer)
        .unwrap();
    assert_eq!(buffer.get(0, 0), Some(BGRPixel::from_rgb(1, 1, 1)));
    assert_eq!(buffer.get(1, 1), Some(BGRPixel::from_rgb(0, 0, 0)));
    assert_eq!(buffer.get(0, 1), Some(BGRPixel::from_rgb(0, 0, 0)));
    assert_eq!(buffer.get(1, 0), Some(BGRPixel::from_rgb(0, 0, 0)));
}

#[test]
fn draw_even_line() {
    let mut buffer = BGRPixelBuffer::new(2, 2, &Pixel::black());
    let mut z_buffer = ZBuffer::new(2, 2);
    LineDrawer::new(Point3::new(0, 0, 0), Point3::new(1, 1, 0))
        .draw_line(&BGRPixel::from_rgb(1, 1, 1), &mut buffer, &mut z_buffer)
        .unwrap();
    line_should_run_from_bottom_left_to_top_right(&buffer);
}

#[test]
fn parameter_order_should_not_matter() {
    let mut buffer = BGRPixelBuffer::new(2, 2, &Pixel::black());
    let mut z_buffer = ZBuffer::new(2, 2);
    LineDrawer::new(Point3::new(1, 1, 3), Point3::new(0, 0, 3))
        .draw_line(&BGRPixel::from_rgb(1, 1, 1), &mut buffer, &mut z_buffer)
        .unwrap();
    line_should_run_from_bottom_left_to_top_right(&buffer);
}

#[test]
fn should_be_able_to_draw_shallow_line() {
    let mut buffer = BGRPixelBuffer::new(2, 2, &Pixel::black());
    let mut z_buffer = ZBuffer::new(2, 2);
    LineDrawer::new(Point3::new(0, 0, 0), Point3::new(1, 0, 0))
        .draw_line(&BGRPixel::from_rgb(1, 1, 1), &mut buffer, &mut z_buffer)
        .unwrap();
    assert_eq!(buffer.get(0, 0), Some(BGRPixel::from_rgb(1, 1, 1)));
    assert_eq!(buffer.get(1, 1), Some(BGRPixel::from_rgb(0, 0, 0)));
    assert_eq!(buffer.get(1, 0), Some(BGRPixel::from_rgb(1, 1, 1)));
    assert_eq!(buffer.get(0, 1), Some(BGRPixel::from_rgb(0, 0, 0)));
}

#[test]
fn should_be_able_to_draw_steep_line() {
    let mut buffer = BGRPixelBuffer::new(2, 2, &Pixel::black());
    let mut z_buffer = ZBuffer::new(2, 2);
    LineDrawer::new(Point3::new(0, 0, 0), Point3::new(0, 1, 0))
        .draw_line(&BGRPixel::from_rgb(1, 1, 1), &mut buffer, &mut z_buffer)
        .unwrap();
    assert_eq!(buffer.get(0, 0), Some(BGRPixel::from_rgb(1, 1, 1)));
    assert_eq!(buffer.get(1, 1), Some(BGRPixel::from_rgb(0, 0, 0)));
    assert_eq!(buffer.get(0, 1), Some(BGRPixel::from_rgb(1, 1, 1)));
    assert_eq!(buffer.get(1, 0), Some(BGRPixel::from_rgb(0, 0, 0)));
}

fn line_should_run_from_bottom_left_to_top_right(buffer: &BGRPixelBuffer) {
    assert_eq!(buffer.get(0, 0), Some(BGRPixel::from_rgb(1, 1, 1)));
    assert_eq!(buffer.get(1, 1), Some(BGRPixel::from_rgb(1, 1, 1)));
    assert_eq!(buffer.get(0, 1), Some(BGRPixel::from_rgb(0, 0, 0)));
    assert_eq!(buffer.get(1, 0), Some(BGRPixel::from_rgb(0, 0, 0)));
}

#[test]
fn line_direction_gives_identical_buffers() {
    let white = BGRPixel::from_rgb(255, 255, 255);
    let mut forward = BGRPixelBuffer::new(5, 4, &Pixel::black());
    let mut forward_z = ZBuffer::new(5, 4);
    let mut backward = BGRPixelBuffer::new(5, 4, &Pixel::black());
    let mut backward_z = ZBuffer::new(5, 4);
    let p = Point3::new(4, 0, 7);
    let q = Point3::new(0, 3, 7);
    LineDrawer::new(p, q).draw_line(&white, &mut forward, &mut forward_z).unwrap();
    LineDrawer::new(q, p).draw_line(&white, &mut backward, &mut backward_z).unwrap();
    assert_eq!(forward.as_bytes(), backward.as_bytes());
    assert_eq!(forward_z.unpack(), backward_z.unpack());
}

#[test]
fn line_endpoint_out_of_bounds_is_rejected_without_painting() {
    let mut buffer = BGRPixelBuffer::new(2, 2, &Pixel::black());
    let mut z_buffer = ZBuffer::new(2, 2);
    let before = buffer.clone_buffer();
    let result = LineDrawer::new(Point3::new(0, 0, 0), Point3::new(5, 0, 0)).draw_line(
        &BGRPixel::from_rgb(1, 1, 1),
        &mut buffer,
        &mut z_buffer,
    );
    assert!(result.is_err());
    assert_eq!(buffer.clone_buffer(), before);
    assert_eq!(z_buffer.unpack(), vec![0, 0, 0, 0]);
}

#[test]
fn white_diagonal_on_two_by_two_paints_the_two_corners() {
    let white = BGRPixel::from_rgb(255, 255, 255);
    let black = BGRPixel::from_rgb(0, 0, 0);
    let mut buffer = BGRPixelBuffer::new(2, 2, &black);
    let mut z_buffer = ZBuffer::new(2, 2);
    LineDrawer::new(Point3::new(0, 0, 0), Point3::new(1, 1, 0))
        .draw_line(&white, &mut buffer, &mut z_buffer)
        .unwrap();
    assert_eq!(buffer.get(0, 0), Some(white));
    assert_eq!(buffer.get(1, 1), Some(white));
    assert_eq!(buffer.get(0, 1), Some(black));
    assert_eq!(buffer.get(1, 0), Some(black));
}

#[test]
fn lerp_rounds_half_away_from_zero() {
    assert_eq!(lerp(0, 10, 1, 4), 3);
    assert_eq!(lerp(10, 0, 1, 4), 8);
    assert_eq!(lerp(3, 3, 0, 0), 3);
    assert_eq!(lerp(0, 9, 1, 3), 3);
}

#[test]
fn hidden_line_pixels_are_not_painted() {
    let white = BGRPixel::from_rgb(255, 255, 255);
    let grey = BGRPixel::from_rgb(9, 9, 9);
    let black = BGRPixel::from_rgb(0, 0, 0);
    let mut buffer = BGRPixelBuffer::new(2, 1, &black);
    let mut z_buffer = ZBuffer::new(2, 1);
    LineDrawer::new(Point3::new(0, 0, 200), Point3::new(1, 0, 200))
        .draw_line(&white, &mut buffer, &mut z_buffer)
        .unwrap();
    LineDrawer::new(Point3::new(0, 0, 100), Point3::new(1, 0, 100))
        .draw_line(&grey, &mut buffer, &mut z_buffer)
        .unwrap();
    assert_eq!(buffer.get(0, 0), Some(white));
    assert_eq!(buffer.get(1, 0), Some(white));
    assert_eq!(z_buffer.unpack(), vec![200, 200]);
}
