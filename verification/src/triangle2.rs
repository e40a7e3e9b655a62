use vstd::prelude::*;
use crate::bounding_box::{min3, max3, BoundingBox2};
use crate::point::Point2;

verus! {

/// Exact barycentric coordinates of a point with respect to a triangle,
/// kept as integer numerators over a common denominator: the first
/// coordinate is `num_ab / den`, the second `num_ac / den`. A zero
/// denominator marks a degenerate (zero-area) triangle.
#[derive(Clone, Copy, Debug, PartialEq, Eq, Structural)]
pub struct BaryCoords {
    pub num_ab: i128,
    pub num_ac: i128,
    pub den: i128,
}

/// A triangle in screen space, two coordinates per corner.
#[derive(Clone, Copy, Debug, PartialEq, Eq, Structural)]
pub struct Triangle2 {
    pub a: Point2,
    pub b: Point2,
    pub c: Point2,
}

impl Triangle2 {
    /// Numerator of the first barycentric coordinate of (px, py): the
    /// cross product of the edge vectors' x components and y components,
    /// first component.
    pub open spec fn bary_num_ab(&self, px: int, py: int) -> int {
        (self.c.x - self.a.x) * (self.a.y - py) - (self.a.x - px) * (self.c.y - self.a.y)
    }

    /// Numerator of the second barycentric coordinate of (px, py).
    pub open spec fn bary_num_ac(&self, px: int, py: int) -> int {
        (self.a.x - px) * (self.b.y - self.a.y) - (self.b.x - self.a.x) * (self.a.y - py)
    }

    /// Numerator of the third, complementary barycentric weight: the
    /// doubled signed area of the triangle (p, b, c).
    pub open spec fn bary_num_rest(&self, px: int, py: int) -> int {
        (self.b.x - px) * (self.c.y - py) - (self.c.x - px) * (self.b.y - py)
    }

    /// Common denominator of the barycentric coordinates: the doubled
    /// signed area of the triangle. Zero exactly for degenerate triangles.
    pub open spec fn bary_den(&self) -> int {
        (self.b.x - self.a.x) * (self.c.y - self.a.y)
            - (self.c.x - self.a.x) * (self.b.y - self.a.y)
    }

    /// Point-in-triangle test: (px, py) lies inside (boundary included)
    /// exactly when both barycentric coordinates are at least 0 and their
    /// sum is at most 1, as rationals over the signed denominator. A
    /// degenerate triangle contains no point.
    pub open spec fn inside(&self, px: int, py: int) -> bool {
        let nx = self.bary_num_ab(px, py);
        let ny = self.bary_num_ac(px, py);
        let d = self.bary_den();
        if d > 0 {
            nx >= 0 && ny >= 0 && nx + ny <= d
        } else if d < 0 {
            nx <= 0 && ny <= 0 && nx + ny >= d
        } else {
            false
        }
    }

    pub fn new(a: Point2, b: Point2, c: Point2) -> (r: Self)
        ensures
            r.a == a,
            r.b == b,
            r.c == c,
    {
        Triangle2 { a, b, c }
    }

    /// The exact barycentric coordinates of `p`, as numerators over the
    /// triangle's doubled signed area.
    pub fn get_bary_coords(&self, p: Point2) -> (r: BaryCoords)
        ensures
            r.num_ab == self.bary_num_ab(p.x as int, p.y as int),
            r.num_ac == self.bary_num_ac(p.x as int, p.y as int),
            r.den == self.bary_den(),
            -0x4_0000_0000_0000_0000 <= r.num_ab <= 0x4_0000_0000_0000_0000,
            -0x4_0000_0000_0000_0000 <= r.num_ac <= 0x4_0000_0000_0000_0000,
            -0x4_0000_0000_0000_0000 <= r.den <= 0x4_0000_0000_0000_0000,
    {
        let ab_x: i64 = self.b.x as i64 - self.a.x as i64;
        let ab_y: i64 = self.b.y as i64 - self.a.y as i64;
        let ac_x: i64 = self.c.x as i64 - self.a.x as i64;
        let ac_y: i64 = self.c.y as i64 - self.a.y as i64;
        let pa_x: i64 = self.a.x as i64 - p.x as i64;
        let pa_y: i64 = self.a.y as i64 - p.y as i64;
        proof {
            let b32: int = 0x1_0000_0000;
            crate::numeric::lemma_mul_fits(ac_x as int, pa_y as int, b32, b32);
            crate::numeric::lemma_mul_fits(pa_x as int, ac_y as int, b32, b32);
            crate::numeric::lemma_mul_fits(pa_x as int, ab_y as int, b32, b32);
            crate::numeric::lemma_mul_fits(ab_x as int, pa_y as int, b32, b32);
            crate::numeric::lemma_mul_fits(ab_x as int, ac_y as int, b32, b32);
            crate::numeric::lemma_mul_fits(ac_x as int, ab_y as int, b32, b32);
        }
        BaryCoords {
            num_ab: (ac_x as i128) * (pa_y as i128) - (pa_x as i128) * (ac_y as i128),
            num_ac: (pa_x as i128) * (ab_y as i128) - (ab_x as i128) * (pa_y as i128),
            den: (ab_x as i128) * (ac_y as i128) - (ac_x as i128) * (ab_y as i128),
        }
    }

    pub fn is_inside_point(&self, p: Point2) -> (r: bool)
        ensures
            r == self.inside(p.x as int, p.y as int),
    {
        let bary_coords = self.get_bary_coords(p);
        if bary_coords.den > 0 {
            bary_coords.num_ab >= 0 && bary_coords.num_ac >= 0
                && bary_coords.num_ab + bary_coords.num_ac <= bary_coords.den
        } else if bary_coords.den < 0 {
            bary_coords.num_ab <= 0 && bary_coords.num_ac <= 0
                && bary_coords.num_ab + bary_coords.num_ac >= bary_coords.den
        } else {
            false
        }
    }

    pub fn get_bounding_box(&self) -> (r: BoundingBox2)
        ensures
            r.lower_left.x == min3(self.a.x as int, self.b.x as int, self.c.x as int),
            r.lower_left.y == min3(self.a.y as int, self.b.y as int, self.c.y as int),
            r.upper_right.x == max3(self.a.x as int, self.b.x as int, self.c.x as int),
            r.upper_right.y == max3(self.a.y as int, self.b.y as int, self.c.y as int),
    {
        BoundingBox2::from_triangle2(self)
    }
}

/// The barycentric weights of any point partition one: the two
/// cross-product numerators and the complementary third numerator always
/// add up to exactly the common denominator, so the three weights
/// `num_ab / den`, `num_ac / den` and `num_rest / den` sum to 1 whenever
/// the triangle is not degenerate.
pub proof fn lemma_barycentric_partition(t: Triangle2, px: int, py: int)
    ensures
        t.bary_num_ab(px, py) + t.bary_num_ac(px, py) + t.bary_num_rest(px, py)
            == t.bary_den(),
{
    let ax = t.a.x as int;
    let ay = t.a.y as int;
    let bx = t.b.x as int;
    let by = t.b.y as int;
    let cx = t.c.x as int;
    let cy = t.c.y as int;
    assert((cx - ax) * (ay - py) - (ax - px) * (cy - ay)
        + ((ax - px) * (by - ay) - (bx - ax) * (ay - py))
        + ((bx - px) * (cy - py) - (cx - px) * (by - py))
        == (bx - ax) * (cy - ay) - (cx - ax) * (by - ay)) by (nonlinear_arith);
}

} // verus!
