use vstd::prelude::*;
use crate::draw_mode::DrawMode;
use crate::image::traits::pixel_buffer::PixelBuffer;
use crate::line_drawer::{is_steep, line2d_effect, line2d_pixel_partial, normalized, step_of, on_line};
use crate::point::Point3;
use crate::renderer_error::RendererError;
use crate::triangle::Triangle;
use crate::triangle_drawer::{outline_effect, triangle_normal_effect, TriangleDrawer};
use crate::vertex::Vertex;
use crate::vertex_coordinate_mapper::{in_normalized_device_coords, mapped_point};
use crate::z_buffer::ZBuffer;

verus! {

/// The triangle the three vertices map to on a w x h pixel grid.
pub open spec fn mapped_triangle(a: Vertex, b: Vertex, c: Vertex, w: int, h: int) -> Triangle {
    Triangle {
        a: mapped_point(a, w, h),
        b: mapped_point(b, w, h),
        c: mapped_point(c, w, h),
    }
}

/// The renderer owns one pixel buffer and one depth buffer of the same
/// dimensions and exposes the public drawing operations over them.
pub struct Renderer<T: PixelBuffer> {
    buffer: T,
    z_buffer: ZBuffer,
}

impl<T: PixelBuffer> Renderer<T> {
    pub closed spec fn buffer_spec(&self) -> T {
        self.buffer
    }

    pub closed spec fn z_buffer_spec(&self) -> ZBuffer {
        self.z_buffer
    }

    pub open spec fn width_spec(&self) -> int {
        self.buffer_spec().width_spec()
    }

    pub open spec fn height_spec(&self) -> int {
        self.buffer_spec().height_spec()
    }

    /// Both buffers are consistent, have the same dimensions, and hold
    /// at least one pixel per axis.
    pub open spec fn wf(&self) -> bool {
        &&& self.buffer_spec().wf()
        &&& self.z_buffer_spec().wf()
        &&& self.z_buffer_spec().width_spec() == self.buffer_spec().width_spec()
        &&& self.z_buffer_spec().height_spec() == self.buffer_spec().height_spec()
        &&& 1 <= self.buffer_spec().width_spec() <= 0xffff
        &&& 1 <= self.buffer_spec().height_spec() <= 0xffff
    }

    /// A fresh renderer: every pixel holds the initial color, every
    /// depth sample the minimum depth.
    pub fn new(width: u16, height: u16, init_color: &T::PixelType) -> (r: Renderer<T>)
        requires
            width >= 1,
            height >= 1,
            3 * (width * height) <= usize::MAX,
        ensures
            r.wf(),
            r.width_spec() == width,
            r.height_spec() == height,
            forall|x: int, y: int|
                0 <= x < width && 0 <= y < height ==> r.buffer_spec().pixel_at(x, y)
                    == *init_color,
            forall|x: int, y: int|
                0 <= x < width && 0 <= y < height ==> r.z_buffer_spec().depth_at(x, y) == 0,
    {
        proof {
            assert(0 <= (width as int) * (height as int) <= (width as int) * (height as int))
                by (nonlinear_arith)
                requires
                    width >= 0,
                    height >= 0,
            ;
        }
        Renderer {
            buffer: T::new(width, height, init_color),
            z_buffer: ZBuffer::new(width as u32, height as u32),
        }
    }

    /// Wraps an existing pixel buffer, pairing it with a fresh depth
    /// buffer of the same dimensions.
    pub fn from_pixel_buffer(image: T) -> (r: Renderer<T>)
        requires
            image.wf(),
            image.width_spec() >= 1,
            image.height_spec() >= 1,
        ensures
            r.wf(),
            r.buffer_spec() == image,
            forall|x: int, y: int|
                0 <= x < image.width_spec() && 0 <= y < image.height_spec()
                    ==> r.z_buffer_spec().depth_at(x, y) == 0,
    {
        let width: u16 = image.width();
        let height: u16 = image.height();
        proof {
            crate::numeric::lemma_mul_fits(width as int, height as int, 0xffff, 0xffff);
        }
        Renderer { buffer: image, z_buffer: ZBuffer::new(width as u32, height as u32) }
    }

    /// Paints every pixel of the color buffer; the depth buffer stays as
    /// it is.
    pub fn clear_to_color(&mut self, color: &T::PixelType)
        requires
            old(self).wf(),
        ensures
            final(self).wf(),
            final(self).width_spec() == old(self).width_spec(),
            final(self).height_spec() == old(self).height_spec(),
            final(self).z_buffer_spec() == old(self).z_buffer_spec(),
            forall|x: int, y: int|
                0 <= x < old(self).width_spec() && 0 <= y < old(self).height_spec()
                    ==> final(self).buffer_spec().pixel_at(x, y) == *color,
    {
        let ghost buf0 = self.buffer;
        let width: u16 = self.buffer.width();
        let height: u16 = self.buffer.height();
        let mut x: u16 = 0;
        while x < width
            invariant
                self.z_buffer == old(self).z_buffer,
                x <= width,
                self.buffer.wf(),
                self.buffer.width_spec() == width,
                self.buffer.height_spec() == height,
                width == buf0.width_spec(),
                height == buf0.height_spec(),
                forall|qx: int, qy: int|
                    0 <= qx < width && 0 <= qy < height ==> #[trigger] self.buffer.pixel_at(
                        qx,
                        qy,
                    ) == (if qx < x {
                        *color
                    } else {
                        buf0.pixel_at(qx, qy)
                    }),
            decreases width - x,
        {
            let mut y: u16 = 0;
            while y < height
                invariant
                    self.z_buffer == old(self).z_buffer,
                    x < width,
                    y <= height,
                    self.buffer.wf(),
                    self.buffer.width_spec() == width,
                    self.buffer.height_spec() == height,
                    width == buf0.width_spec(),
                    height == buf0.height_spec(),
                    forall|qx: int, qy: int|
                        0 <= qx < width && 0 <= qy < height ==> #[trigger] self.buffer.pixel_at(
                            qx,
                            qy,
                        ) == (if qx < x || (qx == x && qy < y) {
                            *color
                        } else {
                            buf0.pixel_at(qx, qy)
                        }),
                decreases height - y,
            {
                let res = self.buffer.set(x, y, color);
                proof {
                    assert(res is Ok);
                }
                y = y + 1;
            }
            x = x + 1;
        }
    }

    /// Draws a plain 2D segment between two pixel coordinates, with no
    /// depth test: every pixel on the line is painted. Fails, changing
    /// nothing, exactly when an endpoint lies off the grid.
    pub fn line(&mut self, x1: u16, y1: u16, x2: u16, y2: u16, line_color: &T::PixelType) -> (r:
        Result<(), ()>)
        requires
            old(self).wf(),
        ensures
            final(self).wf(),
            final(self).width_spec() == old(self).width_spec(),
            final(self).height_spec() == old(self).height_spec(),
            final(self).z_buffer_spec() == old(self).z_buffer_spec(),
            r is Ok <==> x1 < old(self).width_spec() && y1 < old(self).height_spec() && x2 < old(
                self,
            ).width_spec() && y2 < old(self).height_spec(),
            r is Err ==> final(self).buffer_spec() == old(self).buffer_spec(),
            r is Ok ==> ({
                let p = Point3 { x: x1 as i32, y: y1 as i32, z: 0 };
                let q = Point3 { x: x2 as i32, y: y2 as i32, z: 0 };
                line2d_effect(
                    normalized(p, q).0,
                    normalized(p, q).1,
                    is_steep(p, q),
                    *line_color,
                    old(self).buffer_spec(),
                    final(self).buffer_spec(),
                )
            }),
    {
        let ghost buf0 = self.buffer;
        let width: u16 = self.buffer.width();
        let height: u16 = self.buffer.height();
        if !(x1 < width && y1 < height && x2 < width && y2 < height) {
            return Err(());
        }
        let p = Point3 { x: x1 as i32, y: y1 as i32, z: 0 };
        let q = Point3 { x: x2 as i32, y: y2 as i32, z: 0 };
        let drawer = crate::line_drawer::LineDrawer::new(p, q);
        let ghost s = drawer.start_spec();
        let ghost e = drawer.end_spec();
        let ghost steep = drawer.steep_spec();
        let (start, end, steep_exec) = drawer.endpoints();
        let mut t: i32 = start.x;
        while t <= end.x
            invariant
                s == start,
                e == end,
                steep == steep_exec,
                self.z_buffer == old(self).z_buffer,
                s.x <= t,
                t <= e.x + 1,
                self.buffer.wf(),
                self.buffer.width_spec() == buf0.width_spec(),
                self.buffer.height_spec() == buf0.height_spec(),
                0 <= buf0.width_spec() <= 0xffff,
                0 <= buf0.height_spec() <= 0xffff,
                crate::line_drawer::line_in_bounds(
                    s,
                    e,
                    steep,
                    buf0.width_spec(),
                    buf0.height_spec(),
                ),
                0 <= s.z <= 255,
                0 <= e.z <= 255,
                forall|qx: int, qy: int|
                    0 <= qx < buf0.width_spec() && 0 <= qy < buf0.height_spec()
                        ==> #[trigger] line2d_pixel_partial(
                        s,
                        e,
                        steep,
                        *line_color,
                        buf0,
                        self.buffer,
                        t as int,
                        qx,
                        qy,
                    ),
            decreases e.x + 1 - t,
        {
            let ghost buf_pre = self.buffer;
            let span: i32 = end.x - start.x;
            let offset: i32 = t - start.x;
            let y: i32 = crate::line_drawer::lerp(
                start.y as u32,
                end.y as u32,
                offset as u32,
                span as u32,
            ) as i32;
            let (px, py): (i32, i32) = if steep_exec {
                (y, t)
            } else {
                (t, y)
            };
            proof {
                assert(on_line(s, e, steep, px as int, py as int));
                assert(step_of(steep, px as int, py as int) == t as int);
                assert(0 <= px < buf0.width_spec() && 0 <= py < buf0.height_spec());
            }
            let res = self.buffer.set(px as u16, py as u16, line_color);
            proof {
                assert(res is Ok);
                assert forall|qx: int, qy: int|
                    0 <= qx < buf0.width_spec() && 0 <= qy < buf0.height_spec()
                        implies #[trigger] line2d_pixel_partial(
                        s,
                        e,
                        steep,
                        *line_color,
                        buf0,
                        self.buffer,
                        t as int + 1,
                        qx,
                        qy,
                    ) by {
                    assert(line2d_pixel_partial(
                        s, e, steep, *line_color, buf0, buf_pre, t as int, qx, qy,
                    ));
                    if !(qx == px as int && qy == py as int) {
                        assert(self.buffer.pixel_at(qx, qy) == buf_pre.pixel_at(qx, qy));
                        if on_line(s, e, steep, qx, qy) && step_of(steep, qx, qy) == t as int {
                            assert(qx == px as int && qy == py as int);
                        }
                    }
                }
            }
            t = t + 1;
        }
        proof {
            assert forall|qx: int, qy: int|
                0 <= qx < buf0.width_spec() && 0 <= qy < buf0.height_spec()
                    implies #[trigger] crate::line_drawer::line2d_pixel_done(
                    s,
                    e,
                    steep,
                    *line_color,
                    buf0,
                    self.buffer,
                    qx,
                    qy,
                ) by {
                assert(line2d_pixel_partial(
                    s, e, steep, *line_color, buf0, self.buffer, t as int, qx, qy,
                ));
            }
        }
        Ok(())
    }

    /// Draws the triangle's outline (wireframe), depth-tested.
    pub fn draw_triangle_2d(
        &mut self,
        vertex_a: &Vertex,
        vertex_b: &Vertex,
        vertex_c: &Vertex,
        col: &T::PixelType,
    ) -> (r: Result<(), RendererError>)
        requires
            old(self).wf(),
        ensures
            final(self).wf(),
            final(self).width_spec() == old(self).width_spec(),
            final(self).height_spec() == old(self).height_spec(),
            r is Ok <==> in_normalized_device_coords(*vertex_a) && in_normalized_device_coords(
                *vertex_b,
            ) && in_normalized_device_coords(*vertex_c),
            r is Err ==> *final(self) == *old(self) && r == Err::<(), RendererError>(
                RendererError::NotInNormalizedDeviceCoords(
                    if !in_normalized_device_coords(*vertex_a) {
                        *vertex_a
                    } else if !in_normalized_device_coords(*vertex_b) {
                        *vertex_b
                    } else {
                        *vertex_c
                    },
                ),
            ),
            r is Ok ==> outline_effect(
                mapped_triangle(
                    *vertex_a,
                    *vertex_b,
                    *vertex_c,
                    old(self).width_spec(),
                    old(self).height_spec(),
                ),
                *col,
                old(self).buffer_spec(),
                old(self).z_buffer_spec(),
                final(self).buffer_spec(),
                final(self).z_buffer_spec(),
            ),
    {
        let width: u16 = self.buffer.width();
        let height: u16 = self.buffer.height();
        let drawer = TriangleDrawer::from_vertices(vertex_a, vertex_b, vertex_c, width, height)?;
        drawer.draw(DrawMode::Wireframe, col, &mut self.buffer, &mut self.z_buffer);
        Ok(())
    }

    /// Draws the triangle filled: the outline first, then every pixel of
    /// the bounding box that passes the barycentric containment test,
    /// all depth-tested.
    pub fn draw_filled_triangle_2d(
        &mut self,
        vertex_a: &Vertex,
        vertex_b: &Vertex,
        vertex_c: &Vertex,
        col: &T::PixelType,
    ) -> (r: Result<(), RendererError>)
        requires
            old(self).wf(),
        ensures
            final(self).wf(),
            final(self).width_spec() == old(self).width_spec(),
            final(self).height_spec() == old(self).height_spec(),
            r is Ok <==> in_normalized_device_coords(*vertex_a) && in_normalized_device_coords(
                *vertex_b,
            ) && in_normalized_device_coords(*vertex_c),
            r is Err ==> *final(self) == *old(self) && r == Err::<(), RendererError>(
                RendererError::NotInNormalizedDeviceCoords(
                    if !in_normalized_device_coords(*vertex_a) {
                        *vertex_a
                    } else if !in_normalized_device_coords(*vertex_b) {
                        *vertex_b
                    } else {
                        *vertex_c
                    },
                ),
            ),
            r is Ok ==> triangle_normal_effect(
                mapped_triangle(
                    *vertex_a,
                    *vertex_b,
                    *vertex_c,
                    old(self).width_spec(),
                    old(self).height_spec(),
                ),
                *col,
                old(self).buffer_spec(),
                old(self).z_buffer_spec(),
                final(self).buffer_spec(),
                final(self).z_buffer_spec(),
            ),
    {
        let width: u16 = self.buffer.width();
        let height: u16 = self.buffer.height();
        let ghost buf0 = self.buffer;
        let ghost zb0 = self.z_buffer;
        let drawer = TriangleDrawer::from_vertices(vertex_a, vertex_b, vertex_c, width, height)?;
        drawer.draw(DrawMode::Normal, col, &mut self.buffer, &mut self.z_buffer);
        proof {
            let tm = mapped_triangle(
                *vertex_a, *vertex_b, *vertex_c, buf0.width_spec(), buf0.height_spec(),
            );
            assert(tm == drawer.triangle_spec());
            assert(triangle_normal_effect(tm, *col, buf0, zb0, self.buffer, self.z_buffer));
            assert(buf0 == old(self).buffer_spec() && zb0 == old(self).z_buffer_spec());
        }
        Ok(())
    }

    /// A read-only borrow of the color buffer.
    pub fn get_buffer_reference(&self) -> (r: &T)
        ensures
            *r == self.buffer_spec(),
    {
        &self.buffer
    }

    /// Gives up both buffers, ending the renderer's life.
    pub fn unpack(self) -> (r: (T, ZBuffer))
        ensures
            r.0 == self.buffer_spec(),
            r.1 == self.z_buffer_spec(),
    {
        (self.buffer, self.z_buffer)
    }
}

} // verus!
