use mini_renderer::image::bgr_pixel::BGRPixel;
use mini_renderer::image::bgr_pixel_buffer::BGRPixelBuffer;
use mini_renderer::image::traits::pixel::Pixel;
use mini_renderer::image::traits::pixel_buffer::PixelBuffer;
use mini_renderer::renderer::Renderer;
use mini_renderer::vertex::{Vertex, NDC_ONE};

#[test]
fn should_be_able_to_create_renderer_from_dimensions() {
    let _renderer: Renderer<BGRPixelBuffer> = Renderer::new(10, 10, &Pixel::black());
}

#[test]
fn should_be_able_to_create_renderer_from_buffer() {
    let image = BGRPixelBuffer::new(300, 300, &Pixel::black());
    let _renderer = Renderer::from_pixel_buffer(image);
}

#[test]
fn should_be_able_to_clear_with_renderer() {
    let mut renderer: Renderer<BGRPixelBuffer> = Renderer::new(2, 2, &Pixel::black());
    renderer.clear_to_color(&BGRPixel::from_rgb(5, 5, 5));
    let buffer = renderer.get_buffer_reference();
    assert_eq!(buffer.get(0, 0), Some(BGRPixel::from_rgb(5, 5, 5)));
    assert_eq!(buffer.get(0, 1), Some(BGRPixel::from_rgb(5, 5, 5)));
    assert_eq!(buffer.get(1, 0), Some(BGRPixel::from_rgb(5, 5, 5)));
    assert_eq!(buffer.get(1, 1), Some(BGRPixel::from_rgb(5, 5, 5)));
}

#[test]
fn should_be_able_to_get_reference_to_data() {
    let renderer: Renderer<BGRPixelBuffer> = Renderer::new(2, 2, &Pixel::black());
    let buffer_ref = renderer.get_buffer_reference();
    for x in 0..2u16 {
        for y in 0..2u16 {
            assert_eq!(Some(BGRPixel::from_rgb(0, 0, 0)), buffer_ref.get(x, y));
        }
    }
    assert_eq!(2, buffer_ref.height());
    assert_eq!(2, buffer_ref.width());
}

#[test]
fn should_be_able_to_unpack_renderer() {
    let renderer: Renderer<BGRPixelBuffer> = Renderer::new(2, 2, &Pixel::black());
    let (buffer, z_buffer) = renderer.unpack();
    for x in 0..2u16 {
        for y in 0..2u16 {
            assert_eq!(Some(BGRPixel::from_rgb(0, 0, 0)), buffer.get(x, y));
        }
    }
    assert_eq!(2, buffer.height());
    assert_eq!(2, buffer.width());
    assert_eq!(z_buffer.unpack(), vec![0, 0, 0, 0]);
}

#[test]
fn should_be_able_to_draw_triangle() {
    let mut renderer: Renderer<BGRPixelBuffer> = Renderer::new(3, 3, &Pixel::black());
    let vertex_a = Vertex::new(0, NDC_ONE, 0);
    let vertex_b = Vertex::new(NDC_ONE, -NDC_ONE, 0);
    let vertex_c = Vertex::new(-NDC_ONE, -NDC_ONE, 0);
    let result = renderer.draw_triangle_2d(
        &vertex_a,
        &vertex_b,
        &vertex_c,
        &BGRPixel::from_rgb(1, 1, 1),
    );
    assert_eq!(Ok(()), result);
    let buffer = renderer.get_buffer_reference();
    assert_eq!(buffer.get(0, 0), Some(BGRPixel::from_rgb(1, 1, 1)));
    assert_eq!(buffer.get(1, 2), Some(BGRPixel::from_rgb(1, 1, 1)));
    assert_eq!(buffer.get(2, 0), Some(BGRPixel::from_rgb(1, 1, 1)));
    assert_eq!(buffer.get(1, 1), Some(BGRPixel::from_rgb(1, 1, 1)));
    assert_eq!(buffer.get(1, 0), Some(BGRPixel::from_rgb(1, 1, 1)));
}

#[test]
fn should_be_able_to_draw_filled_triangle_from_vertices() {
    let mut renderer: Renderer<BGRPixelBuffer> = Renderer::new(4, 4, &Pixel::black());
    let bottom_left = Vertex::new(-NDC_ONE, -NDC_ONE, 0);
    let top_right = Vertex::new(NDC_ONE, NDC_ONE, 0);
    let bottom_right = Vertex::new(NDC_ONE, -NDC_ONE, 0);
    let result = renderer.draw_filled_triangle_2d(
        &bottom_left,
        &top_right,
        &bottom_right,
        &BGRPixel::from_rgb(1, 1, 1),
    );
    assert_eq!(Ok(()), result);
    let white = Some(BGRPixel::from_rgb(1, 1, 1));
    let buffer = renderer.get_buffer_reference();
    // bottom floor
    assert_eq!(buffer.get(0, 0), white);
    assert_eq!(buffer.get(1, 0), white);
    assert_eq!(buffer.get(2, 0), white);
    assert_eq!(buffer.get(3, 1), white);
    // right wall
    assert_eq!(buffer.get(3, 0), white);
    assert_eq!(buffer.get(3, 1), white);
    assert_eq!(buffer.get(3, 2), white);
    assert_eq!(buffer.get(3, 3), white);
    // slope
    assert_eq!(buffer.get(1, 1), white);
    assert_eq!(buffer.get(2, 2), white);
    // middle
    assert_eq!(buffer.get(2, 1), white);
}

#[test]
fn should_be_able_to_create_a_new_renderer() {
    let renderer: Renderer<BGRPixelBuffer> = Renderer::new(1, 1, &BGRPixel::white());
    assert_eq!(
        renderer.get_buffer_reference().as_bytes(),
        BGRPixelBuffer::new(1, 1, &BGRPixel::white()).as_bytes()
    );
}

#[test]
fn from_pixel_buffer_works() {
    let pixel_buffer = BGRPixelBuffer::new(1, 1, &Pixel::white());
    let renderer = Renderer::from_pixel_buffer(pixel_buffer);
    assert_eq!(
        renderer.get_buffer_reference().as_bytes(),
        BGRPixelBuffer::new(1, 1, &Pixel::white()).as_bytes()
    );
}

#[test]
fn test_line() {
    let mut renderer = renderer_with_4_by_4_white_pixel_buffer();
    assert!(renderer.line(0, 0, 2, 2, &Pixel::black()).is_ok());
    assert_eq!(renderer.get_buffer_reference().get(0, 0).unwrap(), Pixel::black());
    assert_eq!(renderer.get_buffer_reference().get(1, 1).unwrap(), Pixel::black());
    assert_eq!(renderer.get_buffer_reference().get(2, 2).unwrap(), Pixel::black());
    assert_ne!(renderer.get_buffer_reference().get(3, 3).unwrap(), Pixel::black());

    renderer = renderer_with_4_by_4_white_pixel_buffer();
    assert!(!renderer.line(0, 0, 4, 4, &Pixel::black()).is_ok());
    assert_ne!(renderer.get_buffer_reference().get(0, 0).unwrap(), Pixel::black());

    renderer = renderer_with_4_by_4_white_pixel_buffer();
    assert!(renderer.line(0, 0, 3, 1, &Pixel::black()).is_ok());
}

fn renderer_with_4_by_4_white_pixel_buffer() -> Renderer<BGRPixelBuffer> {
    renderer_with_white_buffer_with_dimensions(4, 4)
}

fn renderer_with_white_buffer_with_dimensions(
    width: u16,
    height: u16,
) -> Renderer<BGRPixelBuffer> {
    Renderer::new(width, height, &Pixel::white())
}
