use vstd::prelude::*;
use crate::bounding_box::{max3, min3};
use crate::draw_mode::DrawMode;
use crate::image::traits::pixel_buffer::PixelBuffer;
use crate::line_drawer::{
    is_steep, line_effect, line_pixel_done, normalized, pixel_untouched, LineDrawer,
};
use crate::point::{Point2, Point3};
use crate::renderer_error::RendererError;
use crate::triangle::Triangle;
use crate::vertex::Vertex;
use crate::vertex_coordinate_mapper::{
    in_normalized_device_coords, mapped_point, VertexCoordinateMapper,
};
use crate::z_buffer::{PixelVisibility, ZBuffer, MAX_DEPTH};

verus! {

/// The effect of drawing one edge of a triangle: the line between the
/// two screen points, as the line rasterizer normalizes it.
pub open spec fn edge_effect<T: PixelBuffer>(
    p: Point3,
    q: Point3,
    col: T::PixelType,
    buf0: T,
    zb0: ZBuffer,
    buf1: T,
    zb1: ZBuffer,
) -> bool {
    line_effect(normalized(p, q).0, normalized(p, q).1, is_steep(p, q), col, buf0, zb0, buf1, zb1)
}

/// The effect of the outline pass: the three edges drawn one after the
/// other, each over the state the previous one left.
pub open spec fn outline_effect<T: PixelBuffer>(
    t: Triangle,
    col: T::PixelType,
    buf0: T,
    zb0: ZBuffer,
    buf2: T,
    zb2: ZBuffer,
) -> bool {
    exists|buf_ab: T, zb_ab: ZBuffer, buf_bc: T, zb_bc: ZBuffer|
        {
            &&& #[trigger] edge_effect(t.a, t.b, col, buf0, zb0, buf_ab, zb_ab)
            &&& #[trigger] edge_effect(t.b, t.c, col, buf_ab, zb_ab, buf_bc, zb_bc)
            &&& edge_effect(t.c, t.a, col, buf_bc, zb_bc, buf2, zb2)
            &&& buf_ab.width_spec() == buf0.width_spec()
            &&& buf_ab.height_spec() == buf0.height_spec()
            &&& buf_bc.width_spec() == buf0.width_spec()
            &&& buf_bc.height_spec() == buf0.height_spec()
        }
}

/// Whether the fill pass paints the pixel (qx, qy): it lies in the
/// triangle's bounding box and passes the barycentric containment test.
pub open spec fn fill_covers(t: Triangle, qx: int, qy: int) -> bool {
    &&& min3(t.a.x as int, t.b.x as int, t.c.x as int) <= qx
        <= max3(t.a.x as int, t.b.x as int, t.c.x as int)
    &&& min3(t.a.y as int, t.b.y as int, t.c.y as int) <= qy
        <= max3(t.a.y as int, t.b.y as int, t.c.y as int)
    &&& t.inside(qx, qy)
}

/// The fill region is exactly the barycentric containment test: a point
/// inside the triangle always lies in the bounding box the fill pass
/// scans, so the box clause excludes nothing the test admits.
pub proof fn lemma_fill_covers_is_containment(t: Triangle, qx: int, qy: int)
    ensures
        fill_covers(t, qx, qy) == t.inside(qx, qy),
{
    if t.inside(qx, qy) {
        crate::triangle::lemma_inside_point_in_bounding_box(t, qx, qy);
    }
}

/// One pixel's state after the fill pass over `buf0`, `zb0`: a covered
/// pixel is painted and its interpolated depth recorded exactly when it
/// wins the visibility test; every other pixel keeps color and depth.
pub open spec fn fill_pixel_done<T: PixelBuffer>(
    t: Triangle,
    col: T::PixelType,
    buf0: T,
    zb0: ZBuffer,
    buf1: T,
    zb1: ZBuffer,
    qx: int,
    qy: int,
) -> bool {
    if fill_covers(t, qx, qy) {
        if zb0.depth_at(qx, qy) <= t.z_interp(qx, qy) {
            buf1.pixel_at(qx, qy) == col && zb1.depth_at(qx, qy) == t.z_interp(qx, qy)
        } else {
            pixel_untouched(buf0, zb0, buf1, zb1, qx, qy)
        }
    } else {
        pixel_untouched(buf0, zb0, buf1, zb1, qx, qy)
    }
}

/// The whole effect of the fill pass.
pub open spec fn fill_effect<T: PixelBuffer>(
    t: Triangle,
    col: T::PixelType,
    buf0: T,
    zb0: ZBuffer,
    buf1: T,
    zb1: ZBuffer,
) -> bool {
    forall|qx: int, qy: int|
        0 <= qx < buf0.width_spec() && 0 <= qy < buf0.height_spec()
            ==> #[trigger] fill_pixel_done(t, col, buf0, zb0, buf1, zb1, qx, qy)
}

/// The whole effect of a `Normal`-mode draw: the outline pass followed
/// by the fill pass, the second over the state the first left.
pub open spec fn triangle_normal_effect<T: PixelBuffer>(
    t: Triangle,
    col: T::PixelType,
    buf0: T,
    zb0: ZBuffer,
    buf1: T,
    zb1: ZBuffer,
) -> bool {
    exists|buf_o: T, zb_o: ZBuffer|
        {
            &&& #[trigger] outline_effect(t, col, buf0, zb0, buf_o, zb_o)
            &&& fill_effect(t, col, buf_o, zb_o, buf1, zb1)
            &&& buf_o.width_spec() == buf0.width_spec()
            &&& buf_o.height_spec() == buf0.height_spec()
        }
}

/// Whether the fill pass has handled the pixel once its loops stand at
/// column `cx`, row `cy`: columns are walked left to right, each column
/// bottom to top.
pub open spec fn fill_visited(qx: int, qy: int, cx: int, cy: int) -> bool {
    qx < cx || (qx == cx && qy < cy)
}

/// One pixel's state while the fill pass stands at (cx, cy).
pub open spec fn fill_pixel_partial<T: PixelBuffer>(
    t: Triangle,
    col: T::PixelType,
    buf0: T,
    zb0: ZBuffer,
    buf1: T,
    zb1: ZBuffer,
    cx: int,
    cy: int,
    qx: int,
    qy: int,
) -> bool {
    if fill_covers(t, qx, qy) && fill_visited(qx, qy, cx, cy) {
        fill_pixel_done(t, col, buf0, zb0, buf1, zb1, qx, qy)
    } else {
        pixel_untouched(buf0, zb0, buf1, zb1, qx, qy)
    }
}

/// Rasterizes one triangle: maps its vertices to screen space once, then
/// draws the outline and, in `Normal` mode, fills the inside, both
/// depth-tested against the same depth buffer.
pub struct TriangleDrawer {
    triangle: Triangle,
    width: u16,
    height: u16,
}

impl TriangleDrawer {
    pub closed spec fn triangle_spec(&self) -> Triangle {
        self.triangle
    }

    pub closed spec fn width_spec(&self) -> int {
        self.width as int
    }

    pub closed spec fn height_spec(&self) -> int {
        self.height as int
    }

    /// All three mapped corners stand on the pixel grid with depths in
    /// the depth domain.
    pub closed spec fn wf(&self) -> bool {
        &&& 0 <= self.triangle.a.x < self.width as int
        &&& 0 <= self.triangle.b.x < self.width as int
        &&& 0 <= self.triangle.c.x < self.width as int
        &&& 0 <= self.triangle.a.y < self.height as int
        &&& 0 <= self.triangle.b.y < self.height as int
        &&& 0 <= self.triangle.c.y < self.height as int
        &&& self.triangle.depths_in_range()
    }

    /// Maps the three vertices onto a width x height pixel grid. The
    /// first vertex out of the normalized cube fails the whole call, and
    /// nothing has been drawn yet at that point.
    pub fn from_vertices(
        a: &Vertex,
        b: &Vertex,
        c: &Vertex,
        width: u16,
        height: u16,
    ) -> (r: Result<TriangleDrawer, RendererError>)
        requires
            width >= 1,
            height >= 1,
        ensures
            match r {
                Ok(d) => {
                    &&& in_normalized_device_coords(*a)
                    &&& in_normalized_device_coords(*b)
                    &&& in_normalized_device_coords(*c)
                    &&& d.wf()
                    &&& d.width_spec() == width
                    &&& d.height_spec() == height
                    &&& d.triangle_spec().a == mapped_point(*a, width as int, height as int)
                    &&& d.triangle_spec().b == mapped_point(*b, width as int, height as int)
                    &&& d.triangle_spec().c == mapped_point(*c, width as int, height as int)
                },
                Err(e) => {
                    &&& !(in_normalized_device_coords(*a) && in_normalized_device_coords(*b)
                        && in_normalized_device_coords(*c))
                    &&& e == RendererError::NotInNormalizedDeviceCoords(
                        if !in_normalized_device_coords(*a) {
                            *a
                        } else if !in_normalized_device_coords(*b) {
                            *b
                        } else {
                            *c
                        },
                    )
                },
            },
    {
        let mapper = VertexCoordinateMapper::new(width as u32, height as u32);
        Ok(TriangleDrawer {
            triangle: Triangle::new(
                mapper.map_vertex_coords_to_pixel_coords(a)?,
                mapper.map_vertex_coords_to_pixel_coords(b)?,
                mapper.map_vertex_coords_to_pixel_coords(c)?,
            ),
            width,
            height,
        })
    }

    /// Draws the triangle over the buffers: the outline always, the fill
    /// pass after it in `Normal` mode.
    pub fn draw<T: PixelBuffer>(
        &self,
        draw_mode: DrawMode,
        col: &T::PixelType,
        buffer: &mut T,
        z_buffer: &mut ZBuffer,
    )
        requires
            self.wf(),
            old(buffer).wf(),
            old(z_buffer).wf(),
            old(buffer).width_spec() == self.width_spec(),
            old(buffer).height_spec() == self.height_spec(),
            old(z_buffer).width_spec() == self.width_spec(),
            old(z_buffer).height_spec() == self.height_spec(),
        ensures
            final(buffer).wf(),
            final(z_buffer).wf(),
            final(buffer).width_spec() == old(buffer).width_spec(),
            final(buffer).height_spec() == old(buffer).height_spec(),
            final(z_buffer).width_spec() == old(z_buffer).width_spec(),
            final(z_buffer).height_spec() == old(z_buffer).height_spec(),
            draw_mode == DrawMode::Wireframe ==> outline_effect(
                self.triangle_spec(),
                *col,
                *old(buffer),
                *old(z_buffer),
                *final(buffer),
                *final(z_buffer),
            ),
            draw_mode == DrawMode::Normal ==> triangle_normal_effect(
                self.triangle_spec(),
                *col,
                *old(buffer),
                *old(z_buffer),
                *final(buffer),
                *final(z_buffer),
            ),
    {
        match draw_mode {
            DrawMode::Normal => {
                self.draw_outline(col, buffer, z_buffer);
                let ghost buf_o = *buffer;
                let ghost zb_o = *z_buffer;
                self.fill_triangle(col, buffer, z_buffer);
            },
            DrawMode::Wireframe => {
                self.draw_outline(col, buffer, z_buffer);
            },
        }
    }

    /// The three edges, drawn through the depth-tested line rasterizer.
    fn draw_outline<T: PixelBuffer>(&self, col: &T::PixelType, buffer: &mut T, z_buffer: &mut ZBuffer)
        requires
            self.wf(),
            old(buffer).wf(),
            old(z_buffer).wf(),
            old(buffer).width_spec() == self.width_spec(),
            old(buffer).height_spec() == self.height_spec(),
            old(z_buffer).width_spec() == self.width_spec(),
            old(z_buffer).height_spec() == self.height_spec(),
        ensures
            final(buffer).wf(),
            final(z_buffer).wf(),
            final(buffer).width_spec() == old(buffer).width_spec(),
            final(buffer).height_spec() == old(buffer).height_spec(),
            final(z_buffer).width_spec() == old(z_buffer).width_spec(),
            final(z_buffer).height_spec() == old(z_buffer).height_spec(),
            outline_effect(
                self.triangle_spec(),
                *col,
                *old(buffer),
                *old(z_buffer),
                *final(buffer),
                *final(z_buffer),
            ),
    {
        let ghost buf0 = *buffer;
        let ghost zb0 = *z_buffer;
        let res_ab = LineDrawer::new(self.triangle.a, self.triangle.b).draw_line(
            col,
            buffer,
            z_buffer,
        );
        proof {
            assert(res_ab is Ok);
        }
        let ghost buf_ab = *buffer;
        let ghost zb_ab = *z_buffer;
        let res_bc = LineDrawer::new(self.triangle.b, self.triangle.c).draw_line(
            col,
            buffer,
            z_buffer,
        );
        proof {
            assert(res_bc is Ok);
        }
        let ghost buf_bc = *buffer;
        let ghost zb_bc = *z_buffer;
        let res_ca = LineDrawer::new(self.triangle.c, self.triangle.a).draw_line(
            col,
            buffer,
            z_buffer,
        );
        proof {
            assert(res_ca is Ok);
            assert(edge_effect(
                self.triangle.a, self.triangle.b, *col, buf0, zb0, buf_ab, zb_ab,
            ));
            assert(edge_effect(
                self.triangle.b, self.triangle.c, *col, buf_ab, zb_ab, buf_bc, zb_bc,
            ));
            assert(edge_effect(
                self.triangle.c, self.triangle.a, *col, buf_bc, zb_bc, *buffer, *z_buffer,
            ));
        }
    }

    /// The fill pass: every pixel of the bounding box is classified by
    /// the barycentric test, and an inside pixel is painted when its
    /// interpolated depth wins the visibility test.
    fn fill_triangle<T: PixelBuffer>(&self, col: &T::PixelType, buffer: &mut T, z_buffer: &mut ZBuffer)
        requires
            self.wf(),
            old(buffer).wf(),
            old(z_buffer).wf(),
            old(buffer).width_spec() == self.width_spec(),
            old(buffer).height_spec() == self.height_spec(),
            old(z_buffer).width_spec() == self.width_spec(),
            old(z_buffer).height_spec() == self.height_spec(),
        ensures
            final(buffer).wf(),
            final(z_buffer).wf(),
            final(buffer).width_spec() == old(buffer).width_spec(),
            final(buffer).height_spec() == old(buffer).height_spec(),
            final(z_buffer).width_spec() == old(z_buffer).width_spec(),
            final(z_buffer).height_spec() == old(z_buffer).height_spec(),
            fill_effect(
                self.triangle_spec(),
                *col,
                *old(buffer),
                *old(z_buffer),
                *final(buffer),
                *final(z_buffer),
            ),
    {
        let ghost t = self.triangle;
        let ghost buf0 = *buffer;
        let ghost zb0 = *z_buffer;
        let bounding_box = self.triangle.get_bounding_box();
        let min_x: i32 = bounding_box.min_x();
        let min_y: i32 = bounding_box.min_y();
        let max_x: i32 = bounding_box.max_x();
        let max_y: i32 = bounding_box.max_y();
        let mut x: i32 = min_x;
        while x <= max_x
            invariant
                t == self.triangle,
                self.wf(),
                min_x == min3(t.a.x as int, t.b.x as int, t.c.x as int),
                min_y == min3(t.a.y as int, t.b.y as int, t.c.y as int),
                max_x == max3(t.a.x as int, t.b.x as int, t.c.x as int),
                max_y == max3(t.a.y as int, t.b.y as int, t.c.y as int),
                min_x <= x,
                x <= max_x + 1,
                buffer.wf(),
                z_buffer.wf(),
                buffer.width_spec() == buf0.width_spec(),
                buffer.height_spec() == buf0.height_spec(),
                z_buffer.width_spec() == buf0.width_spec(),
                z_buffer.height_spec() == buf0.height_spec(),
                buf0.width_spec() == self.width_spec(),
                buf0.height_spec() == self.height_spec(),
                0 <= buf0.width_spec() <= 0xffff,
                0 <= buf0.height_spec() <= 0xffff,
                forall|qx: int, qy: int|
                    0 <= qx < buf0.width_spec() && 0 <= qy < buf0.height_spec()
                        ==> #[trigger] fill_pixel_partial(
                        t,
                        *col,
                        buf0,
                        zb0,
                        *buffer,
                        *z_buffer,
                        x as int,
                        min_y as int,
                        qx,
                        qy,
                    ),
            decreases max_x + 1 - x,
        {
            let mut y: i32 = min_y;
            while y <= max_y
                invariant
                    t == self.triangle,
                    self.wf(),
                    min_x == min3(t.a.x as int, t.b.x as int, t.c.x as int),
                    min_y == min3(t.a.y as int, t.b.y as int, t.c.y as int),
                    max_x == max3(t.a.x as int, t.b.x as int, t.c.x as int),
                    max_y == max3(t.a.y as int, t.b.y as int, t.c.y as int),
                    min_x <= x <= max_x,
                    min_y <= y,
                    y <= max_y + 1,
                    buffer.wf(),
                    z_buffer.wf(),
                    buffer.width_spec() == buf0.width_spec(),
                    buffer.height_spec() == buf0.height_spec(),
                    z_buffer.width_spec() == buf0.width_spec(),
                    z_buffer.height_spec() == buf0.height_spec(),
                    buf0.width_spec() == self.width_spec(),
                    buf0.height_spec() == self.height_spec(),
                    0 <= buf0.width_spec() <= 0xffff,
                    0 <= buf0.height_spec() <= 0xffff,
                    forall|qx: int, qy: int|
                        0 <= qx < buf0.width_spec() && 0 <= qy < buf0.height_spec()
                            ==> #[trigger] fill_pixel_partial(
                            t,
                            *col,
                            buf0,
                            zb0,
                            *buffer,
                            *z_buffer,
                            x as int,
                            y as int,
                            qx,
                            qy,
                        ),
                decreases max_y + 1 - y,
            {
                let ghost buf_pre = *buffer;
                let ghost zb_pre = *z_buffer;
                if self.triangle.is_inside_point(Point3::new(x, y, 0)) {
                    let z: u32 = self.triangle.get_z_of_inside_point(Point2::new(x, y));
                    proof {
                        assert(fill_covers(t, x as int, y as int));
                        assert(fill_pixel_partial(
                            t, *col, buf0, zb0, buf_pre, zb_pre, x as int, y as int,
                            x as int, y as int,
                        ));
                        assert(pixel_untouched(buf0, zb0, buf_pre, zb_pre, x as int, y as int));
                    }
                    match z_buffer.update_buffer(x as u32, y as u32, z).unwrap() {
                        PixelVisibility::Visible => {
                            let res = buffer.set(x as u16, y as u16, col);
                            proof {
                                assert(res is Ok);
                            }
                        },
                        PixelVisibility::Hidden => {},
                    }
                }
                proof {
                    assert forall|qx: int, qy: int|
                        0 <= qx < buf0.width_spec() && 0 <= qy < buf0.height_spec()
                            implies #[trigger] fill_pixel_partial(
                            t,
                            *col,
                            buf0,
                            zb0,
                            *buffer,
                            *z_buffer,
                            x as int,
                            y as int + 1,
                            qx,
                            qy,
                        ) by {
                        assert(fill_pixel_partial(
                            t, *col, buf0, zb0, buf_pre, zb_pre, x as int, y as int, qx, qy,
                        ));
                        if qx == x as int && qy == y as int {
                            if fill_covers(t, qx, qy) {
                                assert(fill_pixel_done(
                                    t, *col, buf0, zb0, *buffer, *z_buffer, qx, qy,
                                ));
                            } else {
                                assert(pixel_untouched(buf0, zb0, *buffer, *z_buffer, qx, qy));
                            }
                        } else {
                            assert(pixel_untouched(buf_pre, zb_pre, *buffer, *z_buffer, qx, qy));
                        }
                    }
                }
                y = y + 1;
            }
            proof {
                assert forall|qx: int, qy: int|
                    0 <= qx < buf0.width_spec() && 0 <= qy < buf0.height_spec()
                        implies #[trigger] fill_pixel_partial(
                        t,
                        *col,
                        buf0,
                        zb0,
                        *buffer,
                        *z_buffer,
                        x as int + 1,
                        min_y as int,
                        qx,
                        qy,
                    ) by {
                    assert(fill_pixel_partial(
                        t, *col, buf0, zb0, *buffer, *z_buffer, x as int, y as int, qx, qy,
                    ));
                }
            }
            x = x + 1;
        }
        proof {
            assert forall|qx: int, qy: int|
                0 <= qx < buf0.width_spec() && 0 <= qy < buf0.height_spec()
                    implies #[trigger] fill_pixel_done(
                    t,
                    *col,
                    buf0,
                    zb0,
                    *buffer,
                    *z_buffer,
                    qx,
                    qy,
                ) by {
                assert(fill_pixel_partial(
                    t, *col, buf0, zb0, *buffer, *z_buffer, x as int, min_y as int, qx, qy,
                ));
            }
        }
    }
}

/// Idempotence of filled-triangle drawing: drawing the same triangle a
/// second time, with the same color, leaves every pixel's color and
/// depth sample exactly as the first draw left them. Once a pass has
/// recorded a depth at a pixel, the repeated passes can only resubmit
/// the same depths, so each repeated write either loses the visibility
/// test or repaints the pixel with the color and depth it already has.
pub proof fn lemma_triangle_draw_idempotent<T: PixelBuffer>(
    t: Triangle,
    col: T::PixelType,
    buf0: T,
    zb0: ZBuffer,
    buf1: T,
    zb1: ZBuffer,
    buf2: T,
    zb2: ZBuffer,
)
    requires
        buf1.width_spec() == buf0.width_spec(),
        buf1.height_spec() == buf0.height_spec(),
        triangle_normal_effect(t, col, buf0, zb0, buf1, zb1),
        triangle_normal_effect(t, col, buf1, zb1, buf2, zb2),
    ensures
        forall|qx: int, qy: int|
            0 <= qx < buf0.width_spec() && 0 <= qy < buf0.height_spec()
                ==> #[trigger] pixel_untouched(buf1, zb1, buf2, zb2, qx, qy),
{
    let nab = normalized(t.a, t.b);
    let stab = is_steep(t.a, t.b);
    let nbc = normalized(t.b, t.c);
    let stbc = is_steep(t.b, t.c);
    let nca = normalized(t.c, t.a);
    let stca = is_steep(t.c, t.a);
    let (bo1, zo1): (T, ZBuffer) = choose|bo: T, zo: ZBuffer|
        {
            &&& #[trigger] outline_effect(t, col, buf0, zb0, bo, zo)
            &&& fill_effect(t, col, bo, zo, buf1, zb1)
            &&& bo.width_spec() == buf0.width_spec()
            &&& bo.height_spec() == buf0.height_spec()
        };
    let (bab1, zab1, bbc1, zbc1): (T, ZBuffer, T, ZBuffer) = choose|
        bab: T,
        zab: ZBuffer,
        bbc: T,
        zbc: ZBuffer,
    |
        {
            &&& #[trigger] edge_effect(t.a, t.b, col, buf0, zb0, bab, zab)
            &&& #[trigger] edge_effect(t.b, t.c, col, bab, zab, bbc, zbc)
            &&& edge_effect(t.c, t.a, col, bbc, zbc, bo1, zo1)
            &&& bab.width_spec() == buf0.width_spec()
            &&& bab.height_spec() == buf0.height_spec()
            &&& bbc.width_spec() == buf0.width_spec()
            &&& bbc.height_spec() == buf0.height_spec()
        };
    let (bo2, zo2): (T, ZBuffer) = choose|bo: T, zo: ZBuffer|
        {
            &&& #[trigger] outline_effect(t, col, buf1, zb1, bo, zo)
            &&& fill_effect(t, col, bo, zo, buf2, zb2)
            &&& bo.width_spec() == buf1.width_spec()
            &&& bo.height_spec() == buf1.height_spec()
        };
    let (bab2, zab2, bbc2, zbc2): (T, ZBuffer, T, ZBuffer) = choose|
        bab: T,
        zab: ZBuffer,
        bbc: T,
        zbc: ZBuffer,
    |
        {
            &&& #[trigger] edge_effect(t.a, t.b, col, buf1, zb1, bab, zab)
            &&& #[trigger] edge_effect(t.b, t.c, col, bab, zab, bbc, zbc)
            &&& edge_effect(t.c, t.a, col, bbc, zbc, bo2, zo2)
            &&& bab.width_spec() == buf1.width_spec()
            &&& bab.height_spec() == buf1.height_spec()
            &&& bbc.width_spec() == buf1.width_spec()
            &&& bbc.height_spec() == buf1.height_spec()
        };
    assert forall|qx: int, qy: int|
        0 <= qx < buf0.width_spec() && 0 <= qy < buf0.height_spec()
            implies #[trigger] pixel_untouched(buf1, zb1, buf2, zb2, qx, qy) by {
        assert(line_pixel_done(nab.0, nab.1, stab, col, buf0, zb0, bab1, zab1, qx, qy));
        assert(line_pixel_done(nbc.0, nbc.1, stbc, col, bab1, zab1, bbc1, zbc1, qx, qy));
        assert(line_pixel_done(nca.0, nca.1, stca, col, bbc1, zbc1, bo1, zo1, qx, qy));
        assert(fill_pixel_done(t, col, bo1, zo1, buf1, zb1, qx, qy));
        assert(line_pixel_done(nab.0, nab.1, stab, col, buf1, zb1, bab2, zab2, qx, qy));
        assert(line_pixel_done(nbc.0, nbc.1, stbc, col, bab2, zab2, bbc2, zbc2, qx, qy));
        assert(line_pixel_done(nca.0, nca.1, stca, col, bbc2, zbc2, bo2, zo2, qx, qy));
        assert(fill_pixel_done(t, col, bo2, zo2, buf2, zb2, qx, qy));
    }
}

} // verus!
