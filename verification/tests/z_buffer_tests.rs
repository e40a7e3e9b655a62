use mini_renderer::z_buffer::{PixelVisibility, ZBuffer};

#[test]
fn should_be_able_to_create_zbuffer_from_dimensions() {
    let _z_buffer = ZBuffer::new(2, 2);
}

#[test]
fn should_be_able_to_update_z_buffer() {
    let (x, y) = (1, 1);
    let mut z_buffer = ZBuffer::new(2, 2);
    assert_eq!(
        z_buffer.update_buffer(x, y, 1).unwrap(),
        PixelVisibility::Visible
    );
    assert_eq!(z_buffer.unpack(), vec![0, 0, 0, 1]);
}

#[test]
fn nondecreasing_depths_all_win_and_the_last_one_stays() {
    let mut z_buffer = ZBuffer::new(1, 1);
    assert_eq!(z_buffer.update_buffer(0, 0, 3).unwrap(), PixelVisibility::Visible);
    assert_eq!(z_buffer.update_buffer(0, 0, 3).unwrap(), PixelVisibility::Visible);
    assert_eq!(z_buffer.update_buffer(0, 0, 7).unwrap(), PixelVisibility::Visible);
    assert_eq!(z_buffer.update_buffer(0, 0, 9).unwrap(), PixelVisibility::Visible);
    assert_eq!(z_buffer.update_buffer(0, 0, 8).unwrap(), PixelVisibility::Hidden);
    assert_eq!(z_buffer.unpack(), vec![9]);
}

#[test]
fn equal_depth_wins_the_pixel() {
    let mut z_buffer = ZBuffer::new(1, 1);
    assert_eq!(z_buffer.update_buffer(0, 0, 5).unwrap(), PixelVisibility::Visible);
    assert_eq!(z_buffer.update_buffer(0, 0, 5).unwrap(), PixelVisibility::Visible);
    assert_eq!(z_buffer.unpack(), vec![5]);
}

#[test]
fn hidden_update_leaves_the_sample_unchanged() {
    let mut z_buffer = ZBuffer::new(1, 1);
    assert_eq!(z_buffer.update_buffer(0, 0, 6).unwrap(), PixelVisibility::Visible);
    assert_eq!(z_buffer.update_buffer(0, 0, 2).unwrap(), PixelVisibility::Hidden);
    assert_eq!(z_buffer.unpack(), vec![6]);
}
