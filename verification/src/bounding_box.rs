use vstd::prelude::*;
use crate::point::Point2;
use crate::triangle::Triangle;
use crate::triangle2::Triangle2;

verus! {

/// The smallest of three values.
pub open spec fn min3(a: int, b: int, c: int) -> int {
    if a <= b && a <= c {
        a
    } else if b <= c {
        b
    } else {
        c
    }
}

/// The largest of three values.
pub open spec fn max3(a: int, b: int, c: int) -> int {
    if a >= b && a >= c {
        a
    } else if b >= c {
        b
    } else {
        c
    }
}

/// The smallest axis-aligned rectangle containing a triangle's three
/// points. When values tie on an axis the box degenerates to a line or a
/// point; `min <= max` holds on both axes either way.
#[derive(Clone, Copy, Debug, PartialEq, Eq, Structural)]
pub struct BoundingBox2 {
    pub lower_left: Point2,
    pub upper_right: Point2,
}

impl BoundingBox2 {
    pub fn from_triangle2(triangle: &Triangle2) -> (r: BoundingBox2)
        ensures
            r.lower_left.x == min3(triangle.a.x as int, triangle.b.x as int, triangle.c.x as int),
            r.lower_left.y == min3(triangle.a.y as int, triangle.b.y as int, triangle.c.y as int),
            r.upper_right.x == max3(triangle.a.x as int, triangle.b.x as int, triangle.c.x as int),
            r.upper_right.y == max3(triangle.a.y as int, triangle.b.y as int, triangle.c.y as int),
    {
        BoundingBox2 {
            lower_left: Point2::new(
                min3_exec(triangle.a.x, triangle.b.x, triangle.c.x),
                min3_exec(triangle.a.y, triangle.b.y, triangle.c.y),
            ),
            upper_right: Point2::new(
                max3_exec(triangle.a.x, triangle.b.x, triangle.c.x),
                max3_exec(triangle.a.y, triangle.b.y, triangle.c.y),
            ),
        }
    }

    /// The same box for a screen-space triangle with depth: depth plays no
    /// part in the bounding box.
    pub fn from_triangle(triangle: &Triangle) -> (r: BoundingBox2)
        ensures
            r.lower_left.x == min3(triangle.a.x as int, triangle.b.x as int, triangle.c.x as int),
            r.lower_left.y == min3(triangle.a.y as int, triangle.b.y as int, triangle.c.y as int),
            r.upper_right.x == max3(triangle.a.x as int, triangle.b.x as int, triangle.c.x as int),
            r.upper_right.y == max3(triangle.a.y as int, triangle.b.y as int, triangle.c.y as int),
    {
        BoundingBox2 {
            lower_left: Point2::new(
                min3_exec(triangle.a.x, triangle.b.x, triangle.c.x),
                min3_exec(triangle.a.y, triangle.b.y, triangle.c.y),
            ),
            upper_right: Point2::new(
                max3_exec(triangle.a.x, triangle.b.x, triangle.c.x),
                max3_exec(triangle.a.y, triangle.b.y, triangle.c.y),
            ),
        }
    }

    pub fn min_x(&self) -> (r: i32)
        ensures
            r == self.lower_left.x,
    {
        self.lower_left.x
    }

    pub fn min_y(&self) -> (r: i32)
        ensures
            r == self.lower_left.y,
    {
        self.lower_left.y
    }

    pub fn max_x(&self) -> (r: i32)
        ensures
            r == self.upper_right.x,
    {
        self.upper_right.x
    }

    pub fn max_y(&self) -> (r: i32)
        ensures
            r == self.upper_right.y,
    {
        self.upper_right.y
    }
}

fn min3_exec(a: i32, b: i32, c: i32) -> (r: i32)
    ensures
        r == min3(a as int, b as int, c as int),
{
    if a <= b && a <= c {
        a
    } else if b <= c {
        b
    } else {
        c
    }
}

fn max3_exec(a: i32, b: i32, c: i32) -> (r: i32)
    ensures
        r == max3(a as int, b as int, c as int),
{
    if a >= b && a >= c {
        a
    } else if b >= c {
        b
    } else {
        c
    }
}

} // verus!
