pub mod bounding_box;
pub mod draw_mode;
pub mod image;
pub mod line_drawer;
pub mod numeric;
pub mod point;
pub mod renderer;
pub mod renderer_error;
pub mod triangle;
pub mod triangle_drawer;
pub mod triangle2;
pub mod vector;
pub mod vertex;
pub mod vertex_coordinate_mapper;
pub mod z_buffer;
