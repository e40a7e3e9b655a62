use vstd::prelude::*;
use crate::image::traits::pixel_buffer::PixelBuffer;
use crate::numeric::{lemma_mul_fits, lemma_round_half_up_bounds, round_half_up};
use crate::point::{Point2, Point3};
use crate::renderer_error::RendererError;
use crate::z_buffer::{PixelVisibility, ZBuffer, MAX_DEPTH};

verus! {

/// The point with its x and y roles exchanged; the depth stays put.
pub open spec fn transpose(p: Point3) -> Point3 {
    Point3 { x: p.y, y: p.x, z: p.z }
}

/// A segment is steep when its vertical span exceeds its horizontal
/// span; such a segment is transposed before stepping so that the loop
/// advances one pixel per step.
pub open spec fn is_steep(start: Point3, end: Point3) -> bool {
    vstd::math::abs(start.y - end.y) > vstd::math::abs(start.x - end.x)
}

/// The endpoints as the stepping loop sees them: transposed if the
/// segment is steep, then ordered so the first has the smaller x.
pub open spec fn normalized(start: Point3, end: Point3) -> (Point3, Point3) {
    let (s, e) = if is_steep(start, end) {
        (transpose(start), transpose(end))
    } else {
        (start, end)
    };
    if s.x > e.x {
        (e, s)
    } else {
        (s, e)
    }
}

/// Linear interpolation from `a` to `b` at the fraction `num / den`,
/// rounded half away from zero; a zero-length span yields `a`.
pub open spec fn lerp_spec(a: int, b: int, num: int, den: int) -> int {
    if den == 0 {
        a
    } else {
        round_half_up(a * den + (b - a) * num, den)
    }
}

/// The interpolated cross coordinate at stepping position `t`, for the
/// normalized endpoints `s`, `e`.
pub open spec fn line_y_at(s: Point3, e: Point3, t: int) -> int {
    lerp_spec(s.y as int, e.y as int, t - s.x, e.x - s.x)
}

/// The interpolated depth at stepping position `t`.
pub open spec fn line_z_at(s: Point3, e: Point3, t: int) -> int {
    lerp_spec(s.z as int, e.z as int, t - s.x, e.x - s.x)
}

/// The stepping position that owns the true pixel (qx, qy): its x, or
/// its y once the segment was transposed.
pub open spec fn step_of(steep: bool, qx: int, qy: int) -> int {
    if steep {
        qy
    } else {
        qx
    }
}

/// Whether the line with normalized endpoints `s`, `e` passes through
/// the true pixel (qx, qy).
pub open spec fn on_line(s: Point3, e: Point3, steep: bool, qx: int, qy: int) -> bool {
    if steep {
        s.x <= qy <= e.x && qx == line_y_at(s, e, qy)
    } else {
        s.x <= qx <= e.x && qy == line_y_at(s, e, qx)
    }
}

/// The depth the line submits at the true pixel (qx, qy).
pub open spec fn depth_on_line(s: Point3, e: Point3, steep: bool, qx: int, qy: int) -> int {
    if steep {
        line_z_at(s, e, qy)
    } else {
        line_z_at(s, e, qx)
    }
}

/// The true pixel a normalized endpoint stands on.
pub open spec fn real_pixel(p: Point3, steep: bool) -> Point2 {
    if steep {
        Point2 { x: p.y, y: p.x }
    } else {
        Point2 { x: p.x, y: p.y }
    }
}

pub open spec fn pixel_in_bounds(p: Point2, w: int, h: int) -> bool {
    0 <= p.x < w && 0 <= p.y < h
}

/// Both endpoints must stand on the pixel grid for the line to be drawn
/// at all.
pub open spec fn line_in_bounds(s: Point3, e: Point3, steep: bool, w: int, h: int) -> bool {
    pixel_in_bounds(real_pixel(s, steep), w, h) && pixel_in_bounds(real_pixel(e, steep), w, h)
}

/// What one pixel looks like after the whole line was drawn over the
/// buffers `buf0`, `zb0`: a pixel on the line is painted and its depth
/// recorded exactly when the line's depth there passes the visibility
/// rule; every other pixel keeps its old color and depth.
pub open spec fn line_pixel_done<T: PixelBuffer>(
    s: Point3,
    e: Point3,
    steep: bool,
    col: T::PixelType,
    buf0: T,
    zb0: ZBuffer,
    buf1: T,
    zb1: ZBuffer,
    qx: int,
    qy: int,
) -> bool {
    if on_line(s, e, steep, qx, qy) {
        if zb0.depth_at(qx, qy) <= depth_on_line(s, e, steep, qx, qy) {
            buf1.pixel_at(qx, qy) == col && zb1.depth_at(qx, qy) == depth_on_line(
                s,
                e,
                steep,
                qx,
                qy,
            )
        } else {
            pixel_untouched(buf0, zb0, buf1, zb1, qx, qy)
        }
    } else {
        pixel_untouched(buf0, zb0, buf1, zb1, qx, qy)
    }
}

/// The pixel kept its old color and depth.
pub open spec fn pixel_untouched<T: PixelBuffer>(
    buf0: T,
    zb0: ZBuffer,
    buf1: T,
    zb1: ZBuffer,
    qx: int,
    qy: int,
) -> bool {
    buf1.pixel_at(qx, qy) == buf0.pixel_at(qx, qy) && zb1.depth_at(qx, qy) == zb0.depth_at(
        qx,
        qy,
    )
}

/// One pixel's state while the stepping loop stands at position `upto`:
/// pixels owned by earlier positions are done, the rest untouched.
pub open spec fn line_pixel_partial<T: PixelBuffer>(
    s: Point3,
    e: Point3,
    steep: bool,
    col: T::PixelType,
    buf0: T,
    zb0: ZBuffer,
    buf1: T,
    zb1: ZBuffer,
    upto: int,
    qx: int,
    qy: int,
) -> bool {
    if on_line(s, e, steep, qx, qy) && step_of(steep, qx, qy) < upto {
        line_pixel_done(s, e, steep, col, buf0, zb0, buf1, zb1, qx, qy)
    } else {
        pixel_untouched(buf0, zb0, buf1, zb1, qx, qy)
    }
}

/// The whole effect of a line over buffers of the given dimensions.
pub open spec fn line_effect<T: PixelBuffer>(
    s: Point3,
    e: Point3,
    steep: bool,
    col: T::PixelType,
    buf0: T,
    zb0: ZBuffer,
    buf1: T,
    zb1: ZBuffer,
) -> bool {
    forall|qx: int, qy: int|
        0 <= qx < buf0.width_spec() && 0 <= qy < buf0.height_spec()
            ==> #[trigger] line_pixel_done(s, e, steep, col, buf0, zb0, buf1, zb1, qx, qy)
}

/// Linear interpolation between two sample values at the fraction
/// `amount_num / amount_den`, rounded half away from zero. The result
/// never leaves the closed interval between the two samples.
pub fn lerp(start: u32, end: u32, amount_num: u32, amount_den: u32) -> (r: u32)
    requires
        amount_num <= amount_den || amount_den == 0,
    ensures
        r == lerp_spec(start as int, end as int, amount_num as int, amount_den as int),
        start <= end ==> start <= r <= end,
        end <= start ==> end <= r <= start,
{
    if amount_den == 0 {
        return start;
    }
    proof {
        lemma_mul_fits(start as int, amount_den as int, 0xffff_ffff, 0xffff_ffff);
        lemma_mul_fits(
            (end as int) - (start as int),
            amount_num as int,
            0xffff_ffff,
            0xffff_ffff,
        );
    }
    let num: i128 = (start as i128) * (amount_den as i128) + ((end as i128) - (start as i128))
        * (amount_num as i128);
    let den: i128 = amount_den as i128;
    proof {
        let n = (start as int) * (amount_den as int) + ((end as int) - (start as int)) * (
        amount_num as int);
        assert((start <= end ==> (start as int) * (amount_den as int) <= n <= (end as int) * (
        amount_den as int)) && (end <= start ==> (end as int) * (amount_den as int) <= n <= (
        start as int) * (amount_den as int)) && 0 <= n) by (nonlinear_arith)
            requires
                0 < amount_den,
                amount_num <= amount_den,
                n == (start as int) * (amount_den as int) + ((end as int) - (start as int)) * (
                amount_num as int),
        ;
        if start <= end {
            lemma_round_half_up_bounds(n, amount_den as int, start as int, end as int);
        } else {
            lemma_round_half_up_bounds(n, amount_den as int, end as int, start as int);
        }
    }
    let q: u128 = ((2 * num + den) as u128) / ((2 * den) as u128);
    q as u32
}

/// Draws one straight segment, depth-tested pixel by pixel. The drawer
/// itself only holds the normalized endpoints; the buffers are handed to
/// `draw_line` for the duration of one call.
pub struct LineDrawer {
    start: Point3,
    end: Point3,
    is_steep: bool,
}

impl LineDrawer {
    pub closed spec fn start_spec(&self) -> Point3 {
        self.start
    }

    pub closed spec fn end_spec(&self) -> Point3 {
        self.end
    }

    pub closed spec fn steep_spec(&self) -> bool {
        self.is_steep
    }

    /// Normalizes the segment: transposes it when steep, then orders the
    /// endpoints by x.
    pub fn new(start: Point3, end: Point3) -> (r: LineDrawer)
        ensures
            r.steep_spec() == is_steep(start, end),
            r.start_spec() == normalized(start, end).0,
            r.end_spec() == normalized(start, end).1,
            r.start_spec().x <= r.end_spec().x,
    {
        let mut drawer = LineDrawer::create_initial_instance(start, end);
        drawer.make_line_shallow();
        drawer.order_points();
        drawer
    }

    fn create_initial_instance(start: Point3, end: Point3) -> (r: LineDrawer)
        ensures
            r.start_spec() == start,
            r.end_spec() == end,
            !r.steep_spec(),
    {
        LineDrawer { start, end, is_steep: false }
    }

    /// Transposes both endpoints when the segment is steep, so that the
    /// stepping loop always advances along the longer span.
    fn make_line_shallow(&mut self)
        requires
            !old(self).steep_spec(),
        ensures
            final(self).steep_spec() == is_steep(old(self).start_spec(), old(self).end_spec()),
            final(self).steep_spec() ==> final(self).start_spec() == transpose(
                old(self).start_spec(),
            ) && final(self).end_spec() == transpose(old(self).end_spec()),
            !final(self).steep_spec() ==> *final(self) == *old(self),
    {
        let dx: i64 = self.start.x as i64 - self.end.x as i64;
        let dy: i64 = self.start.y as i64 - self.end.y as i64;
        let x_distance: i64 = if dx < 0 {
            -dx
        } else {
            dx
        };
        let y_distance: i64 = if dy < 0 {
            -dy
        } else {
            dy
        };
        if y_distance > x_distance {
            let s = self.start;
            let e = self.end;
            self.start = Point3 { x: s.y, y: s.x, z: s.z };
            self.end = Point3 { x: e.y, y: e.x, z: e.z };
            self.is_steep = true;
        }
    }

    /// Orders the endpoints so the stepping loop is direction-independent.
    fn order_points(&mut self)
        ensures
            old(self).start_spec().x > old(self).end_spec().x ==> {
                &&& final(self).start_spec() == old(self).end_spec()
                &&& final(self).end_spec() == old(self).start_spec()
                &&& final(self).steep_spec() == old(self).steep_spec()
            },
            old(self).start_spec().x <= old(self).end_spec().x ==> *final(self) == *old(self),
    {
        if self.start.x > self.end.x {
            let s = self.start;
            self.start = self.end;
            self.end = s;
        }
    }

    /// The normalized endpoints and steepness, for callers that run
    /// their own stepping loop.
    pub fn endpoints(&self) -> (r: (Point3, Point3, bool))
        ensures
            r.0 == self.start_spec(),
            r.1 == self.end_spec(),
            r.2 == self.steep_spec(),
    {
        (self.start, self.end, self.is_steep)
    }

    /// Rasterizes the segment. Fails, leaving both buffers untouched,
    /// exactly when an endpoint lies off the pixel grid; otherwise every
    /// pixel on the line is submitted to the depth buffer and painted
    /// exactly when it wins the visibility test.
    pub fn draw_line<T: PixelBuffer>(
        &self,
        col: &T::PixelType,
        buffer: &mut T,
        z_buffer: &mut ZBuffer,
    ) -> (r: Result<(), RendererError>)
        requires
            self.start_spec().x <= self.end_spec().x,
            old(buffer).wf(),
            old(z_buffer).wf(),
            old(z_buffer).width_spec() == old(buffer).width_spec(),
            old(z_buffer).height_spec() == old(buffer).height_spec(),
            0 <= self.start_spec().z <= MAX_DEPTH,
            0 <= self.end_spec().z <= MAX_DEPTH,
        ensures
            final(buffer).wf(),
            final(z_buffer).wf(),
            final(buffer).width_spec() == old(buffer).width_spec(),
            final(buffer).height_spec() == old(buffer).height_spec(),
            final(z_buffer).width_spec() == old(z_buffer).width_spec(),
            final(z_buffer).height_spec() == old(z_buffer).height_spec(),
            r is Ok <==> line_in_bounds(
                self.start_spec(),
                self.end_spec(),
                self.steep_spec(),
                old(buffer).width_spec(),
                old(buffer).height_spec(),
            ),
            r is Err ==> *final(buffer) == *old(buffer) && *final(z_buffer) == *old(z_buffer),
            r is Err ==> r == Err::<(), RendererError>(RendererError::PixelOutOfImageBounds(
                old(buffer).width_spec() as u32,
                old(buffer).height_spec() as u32,
                if !pixel_in_bounds(
                    real_pixel(self.start_spec(), self.steep_spec()),
                    old(buffer).width_spec(),
                    old(buffer).height_spec(),
                ) {
                    real_pixel(self.start_spec(), self.steep_spec())
                } else {
                    real_pixel(self.end_spec(), self.steep_spec())
                },
            )),
            r is Ok ==> line_effect(
                self.start_spec(),
                self.end_spec(),
                self.steep_spec(),
                *col,
                *old(buffer),
                *old(z_buffer),
                *final(buffer),
                *final(z_buffer),
            ),
    {
        let ghost s = self.start;
        let ghost e = self.end;
        let ghost steep = self.is_steep;
        let ghost buf0 = *buffer;
        let ghost zb0 = *z_buffer;
        let width: u16 = buffer.width();
        let height: u16 = buffer.height();
        let start_pixel: Point2 = if self.is_steep {
            Point2 { x: self.start.y, y: self.start.x }
        } else {
            Point2 { x: self.start.x, y: self.start.y }
        };
        let end_pixel: Point2 = if self.is_steep {
            Point2 { x: self.end.y, y: self.end.x }
        } else {
            Point2 { x: self.end.x, y: self.end.y }
        };
        if !(start_pixel.x >= 0 && start_pixel.x < width as i32 && start_pixel.y >= 0
            && start_pixel.y < height as i32) {
            return Err(RendererError::PixelOutOfImageBounds(
                width as u32,
                height as u32,
                start_pixel,
            ));
        }
        if !(end_pixel.x >= 0 && end_pixel.x < width as i32 && end_pixel.y >= 0 && end_pixel.y
            < height as i32) {
            return Err(RendererError::PixelOutOfImageBounds(
                width as u32,
                height as u32,
                end_pixel,
            ));
        }
        let mut x: i32 = self.start.x;
        while x <= self.end.x
            invariant
                s == self.start,
                e == self.end,
                steep == self.is_steep,
                s.x <= x,
                x <= e.x + 1,
                buffer.wf(),
                z_buffer.wf(),
                buffer.width_spec() == buf0.width_spec(),
                buffer.height_spec() == buf0.height_spec(),
                z_buffer.width_spec() == buf0.width_spec(),
                z_buffer.height_spec() == buf0.height_spec(),
                0 <= s.z <= MAX_DEPTH,
                0 <= e.z <= MAX_DEPTH,
                0 <= buf0.width_spec() <= 0xffff,
                0 <= buf0.height_spec() <= 0xffff,
                line_in_bounds(s, e, steep, buf0.width_spec(), buf0.height_spec()),
                forall|qx: int, qy: int|
                    0 <= qx < buf0.width_spec() && 0 <= qy < buf0.height_spec()
                        ==> #[trigger] line_pixel_partial(
                        s,
                        e,
                        steep,
                        *col,
                        buf0,
                        zb0,
                        *buffer,
                        *z_buffer,
                        x as int,
                        qx,
                        qy,
                    ),
            decreases e.x + 1 - x,
        {
            let ghost buf_pre = *buffer;
            let ghost zb_pre = *z_buffer;
            let span: i32 = self.end.x - self.start.x;
            let offset: i32 = x - self.start.x;
            let y: i32 = lerp(
                self.start.y as u32,
                self.end.y as u32,
                offset as u32,
                span as u32,
            ) as i32;
            let z: i32 = lerp(
                self.start.z as u32,
                self.end.z as u32,
                offset as u32,
                span as u32,
            ) as i32;
            let (px, py): (i32, i32) = if self.is_steep {
                (y, x)
            } else {
                (x, y)
            };
            proof {
                assert(y as int == line_y_at(s, e, x as int));
                assert(z as int == line_z_at(s, e, x as int));
                assert(on_line(s, e, steep, px as int, py as int));
                assert(step_of(steep, px as int, py as int) == x as int);
                assert(0 <= px < buf0.width_spec() && 0 <= py < buf0.height_spec());
                assert(line_pixel_partial(
                    s, e, steep, *col, buf0, zb0, buf_pre, zb_pre, x as int,
                    px as int, py as int,
                ));
                assert(pixel_untouched(buf0, zb0, buf_pre, zb_pre, px as int, py as int));
            }
            match z_buffer.update_buffer(px as u32, py as u32, z as u32).unwrap() {
                PixelVisibility::Visible => {
                    let res = buffer.set(px as u16, py as u16, col);
                    proof {
                        assert(res is Ok);
                    }
                },
                PixelVisibility::Hidden => {},
            }
            proof {
                assert forall|qx: int, qy: int|
                    0 <= qx < buf0.width_spec() && 0 <= qy < buf0.height_spec()
                        implies #[trigger] line_pixel_partial(
                        s,
                        e,
                        steep,
                        *col,
                        buf0,
                        zb0,
                        *buffer,
                        *z_buffer,
                        x as int + 1,
                        qx,
                        qy,
                    ) by {
                    assert(line_pixel_partial(
                        s, e, steep, *col, buf0, zb0, buf_pre, zb_pre, x as int, qx, qy,
                    ));
                    if qx == px as int && qy == py as int {
                        assert(line_pixel_done(
                            s, e, steep, *col, buf0, zb0, *buffer, *z_buffer, qx, qy,
                        ));
                    } else {
                        assert(pixel_untouched(buf_pre, zb_pre, *buffer, *z_buffer, qx, qy));
                        if on_line(s, e, steep, qx, qy) && step_of(steep, qx, qy) == x as int {
                            assert(qx == px as int && qy == py as int);
                        }
                    }
                }
            }
            x = x + 1;
        }
        proof {
            assert forall|qx: int, qy: int|
                0 <= qx < buf0.width_spec() && 0 <= qy < buf0.height_spec()
                    implies #[trigger] line_pixel_done(
                    s,
                    e,
                    steep,
                    *col,
                    buf0,
                    zb0,
                    *buffer,
                    *z_buffer,
                    qx,
                    qy,
                ) by {
                assert(line_pixel_partial(
                    s, e, steep, *col, buf0, zb0, *buffer, *z_buffer, x as int, qx, qy,
                ));
            }
        }
        Ok(())
    }
}

/// What one pixel looks like after a plain 2D line (no depth test) was
/// drawn over `buf0`: a pixel on the line carries the color, every other
/// pixel its old value.
pub open spec fn line2d_pixel_done<T: PixelBuffer>(
    s: Point3,
    e: Point3,
    steep: bool,
    col: T::PixelType,
    buf0: T,
    buf1: T,
    qx: int,
    qy: int,
) -> bool {
    if on_line(s, e, steep, qx, qy) {
        buf1.pixel_at(qx, qy) == col
    } else {
        buf1.pixel_at(qx, qy) == buf0.pixel_at(qx, qy)
    }
}

/// One pixel's state while the 2D stepping loop stands at `upto`.
pub open spec fn line2d_pixel_partial<T: PixelBuffer>(
    s: Point3,
    e: Point3,
    steep: bool,
    col: T::PixelType,
    buf0: T,
    buf1: T,
    upto: int,
    qx: int,
    qy: int,
) -> bool {
    if on_line(s, e, steep, qx, qy) && step_of(steep, qx, qy) < upto {
        buf1.pixel_at(qx, qy) == col
    } else {
        buf1.pixel_at(qx, qy) == buf0.pixel_at(qx, qy)
    }
}

/// The whole effect of a plain 2D line.
pub open spec fn line2d_effect<T: PixelBuffer>(
    s: Point3,
    e: Point3,
    steep: bool,
    col: T::PixelType,
    buf0: T,
    buf1: T,
) -> bool {
    forall|qx: int, qy: int|
        0 <= qx < buf0.width_spec() && 0 <= qy < buf0.height_spec()
            ==> #[trigger] line2d_pixel_done(s, e, steep, col, buf0, buf1, qx, qy)
}

/// Drawing a segment is direction-independent: the set of pixels the
/// line passes through is the same from `p` to `q` as from `q` to `p`.
/// Whenever the endpoints stand on distinct pixels, or carry equal
/// depths, the whole normalized segment — submitted depths included —
/// is the same both ways, so even the depth-tested painting agrees. The
/// one exception is two endpoints on one pixel with different depths:
/// there the single pixel is still the same, but the depth submitted
/// for it is the first endpoint's.
pub proof fn lemma_line_symmetric(p: Point3, q: Point3)
    ensures
        is_steep(p, q) == is_steep(q, p),
        !(p.x == q.x && p.y == q.y) || p.z == q.z ==> normalized(p, q) == normalized(q, p),
        forall|qx: int, qy: int|
            on_line(normalized(p, q).0, normalized(p, q).1, is_steep(p, q), qx, qy)
                <==> #[trigger] on_line(
                normalized(q, p).0,
                normalized(q, p).1,
                is_steep(q, p),
                qx,
                qy,
            ),
{
    assert forall|qx: int, qy: int|
        on_line(normalized(p, q).0, normalized(p, q).1, is_steep(p, q), qx, qy)
            <==> #[trigger] on_line(
            normalized(q, p).0,
            normalized(q, p).1,
            is_steep(q, p),
            qx,
            qy,
        ) by {
        let spq = normalized(p, q).0;
        let epq = normalized(p, q).1;
        let sqp = normalized(q, p).0;
        let eqp = normalized(q, p).1;
        if spq == sqp && epq == eqp {
        } else {
            assert(spq.x == epq.x && sqp.x == eqp.x);
            assert(line_y_at(spq, epq, spq.x as int) == spq.y);
            assert(line_y_at(sqp, eqp, sqp.x as int) == sqp.y);
        }
    }
}

/// A zero-length line paints exactly its single pixel: the segment from
/// a point to itself passes through that point's pixel and no other.
pub proof fn lemma_zero_length_line(p: Point3, qx: int, qy: int)
    ensures
        !is_steep(p, p),
        normalized(p, p) == (p, p),
        on_line(p, p, false, qx, qy) <==> (qx == p.x && qy == p.y),
        depth_on_line(p, p, false, p.x as int, p.y as int) == p.z,
{
    assert(line_y_at(p, p, p.x as int) == p.y);
    assert(line_z_at(p, p, p.x as int) == p.z);
}

/// Direction-independence of the plain 2D line: any buffer state that is
/// a valid outcome of drawing the segment from `p` to `q` is also a
/// valid outcome of drawing it from `q` to `p` — the painted pixel set
/// is the same both ways.
pub proof fn lemma_line2d_symmetric<T: PixelBuffer>(
    p: Point3,
    q: Point3,
    col: T::PixelType,
    buf0: T,
    buf1: T,
)
    requires
        line2d_effect(normalized(p, q).0, normalized(p, q).1, is_steep(p, q), col, buf0, buf1),
    ensures
        line2d_effect(normalized(q, p).0, normalized(q, p).1, is_steep(q, p), col, buf0, buf1),
{
    lemma_line_symmetric(p, q);
    assert forall|qx: int, qy: int|
        0 <= qx < buf0.width_spec() && 0 <= qy < buf0.height_spec()
            implies #[trigger] line2d_pixel_done(
            normalized(q, p).0,
            normalized(q, p).1,
            is_steep(q, p),
            col,
            buf0,
            buf1,
            qx,
            qy,
        ) by {
        assert(line2d_pixel_done(
            normalized(p, q).0,
            normalized(p, q).1,
            is_steep(p, q),
            col,
            buf0,
            buf1,
            qx,
            qy,
        ));
        assert(on_line(normalized(p, q).0, normalized(p, q).1, is_steep(p, q), qx, qy)
            <==> on_line(normalized(q, p).0, normalized(q, p).1, is_steep(q, p), qx, qy));
    }
}

/// A zero-length 2D line paints exactly the single pixel it starts on;
/// every other pixel keeps its old color.
pub proof fn lemma_zero_length_line2d<T: PixelBuffer>(p: Point3, col: T::PixelType, buf0: T, buf1: T)
    requires
        line2d_effect(normalized(p, p).0, normalized(p, p).1, is_steep(p, p), col, buf0, buf1),
        0 <= p.x < buf0.width_spec(),
        0 <= p.y < buf0.height_spec(),
    ensures
        buf1.pixel_at(p.x as int, p.y as int) == col,
        forall|qx: int, qy: int|
            0 <= qx < buf0.width_spec() && 0 <= qy < buf0.height_spec() && !(qx == p.x && qy
                == p.y) ==> #[trigger] buf1.pixel_at(qx, qy) == buf0.pixel_at(qx, qy),
{
    lemma_zero_length_line(p, p.x as int, p.y as int);
    assert(line2d_pixel_done(p, p, false, col, buf0, buf1, p.x as int, p.y as int));
    assert forall|qx: int, qy: int|
        0 <= qx < buf0.width_spec() && 0 <= qy < buf0.height_spec() && !(qx == p.x && qy == p.y)
            implies #[trigger] buf1.pixel_at(qx, qy) == buf0.pixel_at(qx, qy) by {
        lemma_zero_length_line(p, qx, qy);
        assert(line2d_pixel_done(p, p, false, col, buf0, buf1, qx, qy));
    }
}

} // verus!
