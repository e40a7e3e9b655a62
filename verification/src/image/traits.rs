pub mod image_header;
pub mod pixel;
pub mod pixel_buffer;
