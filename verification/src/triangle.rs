use vstd::prelude::*;
use vstd::arithmetic::div_mod::{lemma_div_pos_is_pos, lemma_multiply_divide_le};
use crate::bounding_box::{min3, max3, BoundingBox2};
use crate::point::{Point2, Point3};
use crate::triangle2::BaryCoords;
use crate::z_buffer::MAX_DEPTH;

verus! {

/// A triangle in screen space whose corners carry a quantized depth.
/// The barycentric machinery only looks at x and y; the depths are
/// interpolated across the triangle's surface.
#[derive(Clone, Copy, Debug, PartialEq, Eq, Structural)]
pub struct Triangle {
    pub a: Point3,
    pub b: Point3,
    pub c: Point3,
}

impl Triangle {
    /// Numerator of the first barycentric coordinate of (px, py).
    pub open spec fn bary_num_ab(&self, px: int, py: int) -> int {
        (self.c.x - self.a.x) * (self.a.y - py) - (self.a.x - px) * (self.c.y - self.a.y)
    }

    /// Numerator of the second barycentric coordinate of (px, py).
    pub open spec fn bary_num_ac(&self, px: int, py: int) -> int {
        (self.a.x - px) * (self.b.y - self.a.y) - (self.b.x - self.a.x) * (self.a.y - py)
    }

    /// Common denominator of the barycentric coordinates: the doubled
    /// signed area of the triangle's screen-space projection.
    pub open spec fn bary_den(&self) -> int {
        (self.b.x - self.a.x) * (self.c.y - self.a.y)
            - (self.c.x - self.a.x) * (self.b.y - self.a.y)
    }

    /// Point-in-triangle test, boundary included; a degenerate triangle
    /// contains no point.
    pub open spec fn inside(&self, px: int, py: int) -> bool {
        let nx = self.bary_num_ab(px, py);
        let ny = self.bary_num_ac(px, py);
        let d = self.bary_den();
        if d > 0 {
            nx >= 0 && ny >= 0 && nx + ny <= d
        } else if d < 0 {
            nx <= 0 && ny <= 0 && nx + ny >= d
        } else {
            false
        }
    }

    /// Depths quantized to the depth-buffer domain on all three corners.
    pub open spec fn depths_in_range(&self) -> bool {
        &&& 0 <= self.a.z <= MAX_DEPTH
        &&& 0 <= self.b.z <= MAX_DEPTH
        &&& 0 <= self.c.z <= MAX_DEPTH
    }

    /// The interpolated depth at (px, py): the barycentric weights applied
    /// to the corner depths, the exact rational truncated toward zero.
    pub open spec fn z_interp(&self, px: int, py: int) -> int {
        let nx = self.bary_num_ab(px, py);
        let ny = self.bary_num_ac(px, py);
        let d = self.bary_den();
        let num = nx * self.a.z + ny * self.b.z + (d - nx - ny) * self.c.z;
        if d > 0 {
            num / d
        } else {
            (-num) / (-d)
        }
    }

    pub fn new(a: Point3, b: Point3, c: Point3) -> (r: Self)
        ensures
            r.a == a,
            r.b == b,
            r.c == c,
    {
        Triangle { a, b, c }
    }

    /// The exact barycentric coordinates of `p` (depth plays no part), as
    /// numerators over the triangle's doubled signed area.
    pub fn get_bary_coords(&self, p: Point3) -> (r: BaryCoords)
        ensures
            r.num_ab == self.bary_num_ab(p.x as int, p.y as int),
            r.num_ac == self.bary_num_ac(p.x as int, p.y as int),
            r.den == self.bary_den(),
            -0x4_0000_0000_0000_0000 <= r.num_ab <= 0x4_0000_0000_0000_0000,
            -0x4_0000_0000_0000_0000 <= r.num_ac <= 0x4_0000_0000_0000_0000,
            -0x4_0000_0000_0000_0000 <= r.den <= 0x4_0000_0000_0000_0000,
    {
        let ab_x: i64 = self.b.x as i64 - self.a.x as i64;
        let ab_y: i64 = self.b.y as i64 - self.a.y as i64;
        let ac_x: i64 = self.c.x as i64 - self.a.x as i64;
        let ac_y: i64 = self.c.y as i64 - self.a.y as i64;
        let pa_x: i64 = self.a.x as i64 - p.x as i64;
        let pa_y: i64 = self.a.y as i64 - p.y as i64;
        proof {
            let b32: int = 0x1_0000_0000;
            crate::numeric::lemma_mul_fits(ac_x as int, pa_y as int, b32, b32);
            crate::numeric::lemma_mul_fits(pa_x as int, ac_y as int, b32, b32);
            crate::numeric::lemma_mul_fits(pa_x as int, ab_y as int, b32, b32);
            crate::numeric::lemma_mul_fits(ab_x as int, pa_y as int, b32, b32);
            crate::numeric::lemma_mul_fits(ab_x as int, ac_y as int, b32, b32);
            crate::numeric::lemma_mul_fits(ac_x as int, ab_y as int, b32, b32);
        }
        BaryCoords {
            num_ab: (ac_x as i128) * (pa_y as i128) - (pa_x as i128) * (ac_y as i128),
            num_ac: (pa_x as i128) * (ab_y as i128) - (ab_x as i128) * (pa_y as i128),
            den: (ab_x as i128) * (ac_y as i128) - (ac_x as i128) * (ab_y as i128),
        }
    }

    pub fn is_inside_point(&self, p: Point3) -> (r: bool)
        ensures
            r == self.inside(p.x as int, p.y as int),
    {
        let bary_coords = self.get_bary_coords(p);
        if bary_coords.den > 0 {
            bary_coords.num_ab >= 0 && bary_coords.num_ac >= 0
                && bary_coords.num_ab + bary_coords.num_ac <= bary_coords.den
        } else if bary_coords.den < 0 {
            bary_coords.num_ab <= 0 && bary_coords.num_ac <= 0
                && bary_coords.num_ab + bary_coords.num_ac >= bary_coords.den
        } else {
            false
        }
    }

    pub fn get_bounding_box(&self) -> (r: BoundingBox2)
        ensures
            r.lower_left.x == min3(self.a.x as int, self.b.x as int, self.c.x as int),
            r.lower_left.y == min3(self.a.y as int, self.b.y as int, self.c.y as int),
            r.upper_right.x == max3(self.a.x as int, self.b.x as int, self.c.x as int),
            r.upper_right.y == max3(self.a.y as int, self.b.y as int, self.c.y as int),
    {
        BoundingBox2::from_triangle(self)
    }

    /// The interpolated depth at an inside point. The weights of an inside
    /// point are a convex combination, so the result stays within the
    /// depth domain.
    pub fn get_z_of_inside_point(&self, p: Point2) -> (r: u32)
        requires
            self.inside(p.x as int, p.y as int),
            self.depths_in_range(),
        ensures
            r == self.z_interp(p.x as int, p.y as int),
            r <= MAX_DEPTH,
    {
        let bary_coords = self.get_bary_coords(Point3::new(p.x, p.y, 0));
        let nx: i128 = bary_coords.num_ab;
        let ny: i128 = bary_coords.num_ac;
        let d: i128 = bary_coords.den;
        proof {
            let b66: int = 0x4_0000_0000_0000_0000;
            crate::numeric::lemma_mul_fits(nx as int, self.a.z as int, b66, MAX_DEPTH as int);
            crate::numeric::lemma_mul_fits(ny as int, self.b.z as int, b66, MAX_DEPTH as int);
            crate::numeric::lemma_mul_fits(
                d - nx - ny, self.c.z as int, 3 * b66, MAX_DEPTH as int);
        }
        let num: i128 = nx * (self.a.z as i128) + ny * (self.b.z as i128)
            + (d - nx - ny) * (self.c.z as i128);
        let (pos_num, pos_den): (i128, i128) = if d > 0 {
            (num, d)
        } else {
            (-num, -d)
        };
        proof {
            lemma_z_interp_in_range(
                nx as int, ny as int, d as int,
                self.a.z as int, self.b.z as int, self.c.z as int);
            lemma_div_pos_is_pos(pos_num as int, pos_den as int);
            lemma_multiply_divide_le(pos_num as int, pos_den as int, MAX_DEPTH as int);
        }
        let q: u128 = (pos_num as u128) / (pos_den as u128);
        q as u32
    }
}

/// For an inside point the interpolation numerator has the denominator's
/// sign and is bounded by the denominator times the largest depth, so the
/// quotient lies in the depth domain.
proof fn lemma_z_interp_in_range(nx: int, ny: int, d: int, za: int, zb: int, zc: int)
    requires
        d != 0,
        d > 0 ==> nx >= 0 && ny >= 0 && nx + ny <= d,
        d < 0 ==> nx <= 0 && ny <= 0 && nx + ny >= d,
        0 <= za <= MAX_DEPTH,
        0 <= zb <= MAX_DEPTH,
        0 <= zc <= MAX_DEPTH,
    ensures
        d > 0 ==> 0 <= nx * za + ny * zb + (d - nx - ny) * zc <= d * (MAX_DEPTH as int),
        d < 0 ==> 0 <= -(nx * za + ny * zb + (d - nx - ny) * zc)
            <= (-d) * (MAX_DEPTH as int),
{
    assert(d > 0 ==> 0 <= nx * za + ny * zb + (d - nx - ny) * zc <= d * (MAX_DEPTH as int))
        by (nonlinear_arith)
        requires
            d > 0 ==> nx >= 0 && ny >= 0 && nx + ny <= d,
            0 <= za <= MAX_DEPTH,
            0 <= zb <= MAX_DEPTH,
            0 <= zc <= MAX_DEPTH,
    ;
    assert(d < 0 ==> 0 <= -(nx * za + ny * zb + (d - nx - ny) * zc)
        <= (-d) * (MAX_DEPTH as int))
        by (nonlinear_arith)
        requires
            d < 0 ==> nx <= 0 && ny <= 0 && nx + ny >= d,
            0 <= za <= MAX_DEPTH,
            0 <= zb <= MAX_DEPTH,
            0 <= zc <= MAX_DEPTH,
    ;
}

/// The algebraic core of barycentric reconstruction, on the edge and
/// point difference vectors u = b - a, v = c - a, w = a - p: combining
/// the two cross-product numerators with the x components recovers the
/// point's x offset times the doubled area.
proof fn lemma_cross_combination_x(u1: int, u2: int, v1: int, v2: int, w1: int, w2: int)
    ensures
        (v1 * w2 - w1 * v2) * u1 + (w1 * u2 - u1 * w2) * v1 + w1 * (u1 * v2 - v1 * u2) == 0,
{
    broadcast use vstd::arithmetic::mul::lemma_mul_is_distributive_sub;
    broadcast use vstd::arithmetic::mul::lemma_mul_is_distributive_sub_other_way;

    assert((v1 * w2) * u1 == (u1 * w2) * v1) by (nonlinear_arith);
    assert((w1 * v2) * u1 == w1 * (u1 * v2)) by (nonlinear_arith);
    assert((w1 * u2) * v1 == w1 * (v1 * u2)) by (nonlinear_arith);
}

/// The same combination against the y components.
proof fn lemma_cross_combination_y(u1: int, u2: int, v1: int, v2: int, w1: int, w2: int)
    ensures
        (v1 * w2 - w1 * v2) * u2 + (w1 * u2 - u1 * w2) * v2 + w2 * (u1 * v2 - v1 * u2) == 0,
{
    broadcast use vstd::arithmetic::mul::lemma_mul_is_distributive_sub;
    broadcast use vstd::arithmetic::mul::lemma_mul_is_distributive_sub_other_way;

    assert((v1 * w2) * u2 == w2 * (v1 * u2)) by (nonlinear_arith);
    assert((w1 * v2) * u2 == (w1 * u2) * v2) by (nonlinear_arith);
    assert((u1 * w2) * v2 == w2 * (u1 * v2)) by (nonlinear_arith);
}

/// Barycentric reconstruction: the weighted corners recover the point.
/// The first numerator weights corner b, the second corner c, and the
/// complement corner a, all over the common denominator.
proof fn lemma_barycentric_reconstruction(t: Triangle, qx: int, qy: int)
    ensures
        t.bary_num_ab(qx, qy) * t.b.x + t.bary_num_ac(qx, qy) * t.c.x + (t.bary_den()
            - t.bary_num_ab(qx, qy) - t.bary_num_ac(qx, qy)) * t.a.x == qx * t.bary_den(),
        t.bary_num_ab(qx, qy) * t.b.y + t.bary_num_ac(qx, qy) * t.c.y + (t.bary_den()
            - t.bary_num_ab(qx, qy) - t.bary_num_ac(qx, qy)) * t.a.y == qy * t.bary_den(),
{
    let ax = t.a.x as int;
    let ay = t.a.y as int;
    let bx = t.b.x as int;
    let by = t.b.y as int;
    let cx = t.c.x as int;
    let cy = t.c.y as int;
    let nx = t.bary_num_ab(qx, qy);
    let ny = t.bary_num_ac(qx, qy);
    let d = t.bary_den();
    lemma_cross_combination_x(bx - ax, by - ay, cx - ax, cy - ay, ax - qx, ay - qy);
    assert(nx * (bx - ax) + ny * (cx - ax) + (ax - qx) * d == 0);
    lemma_cross_combination_y(bx - ax, by - ay, cx - ax, cy - ay, ax - qx, ay - qy);
    assert(nx * (by - ay) + ny * (cy - ay) + (ay - qy) * d == 0);
    broadcast use vstd::arithmetic::mul::lemma_mul_is_commutative;
    broadcast use vstd::arithmetic::mul::lemma_mul_is_distributive_sub;
    broadcast use vstd::arithmetic::mul::lemma_mul_is_distributive_sub_other_way;

    assert(nx * (bx - ax) == nx * bx - nx * ax);
    assert(ny * (cx - ax) == ny * cx - ny * ax);
    assert((ax - qx) * d == ax * d - qx * d);
    assert((d - nx - ny) * ax == (d - nx) * ax - ny * ax);
    assert((d - nx) * ax == d * ax - nx * ax);
    assert(nx * (by - ay) == nx * by - nx * ay);
    assert(ny * (cy - ay) == ny * cy - ny * ay);
    assert((ay - qy) * d == ay * d - qy * d);
    assert((d - nx - ny) * ay == (d - nx) * ay - ny * ay);
    assert((d - nx) * ay == d * ay - nx * ay);
}

/// A point inside a triangle lies in the triangle's bounding box: the
/// inside point is a convex combination of the three corners, so each
/// of its coordinates is bracketed by the corners' smallest and largest.
pub proof fn lemma_inside_point_in_bounding_box(t: Triangle, qx: int, qy: int)
    requires
        t.inside(qx, qy),
    ensures
        min3(t.a.x as int, t.b.x as int, t.c.x as int) <= qx
            <= max3(t.a.x as int, t.b.x as int, t.c.x as int),
        min3(t.a.y as int, t.b.y as int, t.c.y as int) <= qy
            <= max3(t.a.y as int, t.b.y as int, t.c.y as int),
{
    lemma_barycentric_reconstruction(t, qx, qy);
    let nx = t.bary_num_ab(qx, qy);
    let ny = t.bary_num_ac(qx, qy);
    let d = t.bary_den();
    lemma_convex_combination_bracketed(
        nx, ny, d, t.b.x as int, t.c.x as int, t.a.x as int, qx,
        min3(t.a.x as int, t.b.x as int, t.c.x as int),
        max3(t.a.x as int, t.b.x as int, t.c.x as int),
    );
    lemma_convex_combination_bracketed(
        nx, ny, d, t.b.y as int, t.c.y as int, t.a.y as int, qy,
        min3(t.a.y as int, t.b.y as int, t.c.y as int),
        max3(t.a.y as int, t.b.y as int, t.c.y as int),
    );
}

/// A convex combination of three values, with weights summing to the
/// (nonzero) denominator and sharing its sign, lies between the smallest
/// and largest of the values.
proof fn lemma_convex_combination_bracketed(
    nx: int,
    ny: int,
    d: int,
    vb: int,
    vc: int,
    va: int,
    q: int,
    lo: int,
    hi: int,
)
    requires
        d != 0,
        d > 0 ==> nx >= 0 && ny >= 0 && nx + ny <= d,
        d < 0 ==> nx <= 0 && ny <= 0 && nx + ny >= d,
        nx * vb + ny * vc + (d - nx - ny) * va == q * d,
        lo <= va <= hi,
        lo <= vb <= hi,
        lo <= vc <= hi,
    ensures
        lo <= q <= hi,
{
    assert(lo <= q <= hi) by (nonlinear_arith)
        requires
            d != 0,
            d > 0 ==> nx >= 0 && ny >= 0 && nx + ny <= d,
            d < 0 ==> nx <= 0 && ny <= 0 && nx + ny >= d,
            nx * vb + ny * vc + (d - nx - ny) * va == q * d,
            lo <= va <= hi,
            lo <= vb <= hi,
            lo <= vc <= hi,
    ;
}

} // verus!
