pub mod bgr_pixel;
pub mod bgr_pixel_buffer;
pub mod pixel;
pub mod tga_header;
pub mod tga_image;
pub mod traits;
