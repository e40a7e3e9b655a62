use mini_renderer::image::bgr_pixel::BGRPixel;
use mini_renderer::image::bgr_pixel_buffer::BGRPixelBuffer;
use mini_renderer::image::traits::pixel::Pixel;
use mini_renderer::image::traits::pixel_buffer::PixelBuffer;

#[test]
fn creating_a_2_by_2_picture_should_result_in_rgb_repeating_4_times() {
    let image = BGRPixelBuffer::new(2u16, 2u16, &Pixel::from_rgb(1, 2, 3));
    assert_eq!(
        image.as_bytes(),
        vec![3, 2, 1, 3, 2, 1, 3, 2, 1, 3, 2, 1,]
    );
}

#[test]
fn getting_a_valid_pixel_should_return_some_valid_pixel() {
    let image = BGRPixelBuffer::new(3, 3, &Pixel::black());
    assert_eq!(image.get(1, 2), Some(Pixel::black()));
}

#[test]
fn getting_an_invalid_pixel_should_return_none() {
    let image = BGRPixelBuffer::new(3, 3, &Pixel::black());
    assert_eq!(image.get(50, 10), None);
}

#[test]
fn over_indexing_on_the_x_axis_should_return_none() {
    let image = BGRPixelBuffer::new(3, 3, &Pixel::black());
    assert_eq!(image.get(3, 2), None);
}

#[test]
fn over_indexing_on_the_y_axis_should_return_none() {
    let image = BGRPixelBuffer::new(3, 3, &Pixel::black());
    assert_eq!(image.get(2, 3), None);
}

#[test]
fn setting_a_valid_pixel_should_return_ok_and_should_set_the_right_pixel() {
    let mut image = BGRPixelBuffer::new(3, 3, &Pixel::black());
    assert_eq!(image.set(0, 0, &Pixel::black()), Ok(()));
    assert_eq!(image.get(0, 0), Some(Pixel::black()));
}

#[test]
fn setting_an_over_indexed_by_one_pixel_on_the_x_axis_should_return_err() {
    let mut image = BGRPixelBuffer::new(3, 3, &Pixel::black());
    assert_eq!(image.set(3, 2, &Pixel::black()), Err(()));
}

#[test]
fn setting_an_over_indexed_by_one_pixel_on_the_y_axis_should_return_err() {
    let mut image = BGRPixelBuffer::new(3, 3, &Pixel::black());
    assert_eq!(image.set(2, 3, &Pixel::black()), Err(()));
}

#[test]
fn setting_an_over_indexed_pixel_should_return_err() {
    let mut image = BGRPixelBuffer::new(3, 3, &Pixel::black());
    assert_eq!(image.set(20, 20, &Pixel::black()), Err(()));
}

#[test]
fn get_data_ref_mut_should_return_mut_ref_to_data() {
    let image = BGRPixelBuffer::new(3, 3, &Pixel::black());
    let data_clone = image.clone_buffer();
    assert_eq!(&data_clone, image.get_data_ref());
}

#[test]
fn should_be_able_to_modifie_data_through_get_data_ref_mut() {
    let mut image = BGRPixelBuffer::new(3, 3, &Pixel::black());
    image.get_data_ref_mut()[0] = 1;
    assert_eq!(image.as_bytes()[0], 1);
}

#[test]
fn get_data_ref_should_return_ref_to_data() {
    let image = BGRPixelBuffer::new(3, 3, &Pixel::black());
    assert_eq!(&image.clone_buffer(), image.get_data_ref());
}

#[test]
fn can_get_copy_of_data() {
    let image = BGRPixelBuffer::new(3, 3, &Pixel::black());
    assert_eq!(image.as_bytes(), image.clone_buffer());
}

#[test]
fn changing_clone_should_not_affect_original() {
    let image = BGRPixelBuffer::new(3, 3, &Pixel::black());
    let mut data_clone = image.clone_buffer();
    data_clone[0] = 100;
    assert_eq!(image.as_bytes()[0], 0);
}

#[test]
fn set_then_get_round_trips_one_pixel() {
    let mut image = BGRPixelBuffer::new(4, 4, &Pixel::black());
    assert_eq!(image.set(2, 1, &Pixel::from_rgb(9, 8, 7)), Ok(()));
    assert_eq!(image.get(2, 1), Some(Pixel::from_rgb(9, 8, 7)));
    assert_eq!(image.get(1, 2), Some(Pixel::black()));
}
