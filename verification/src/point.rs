use vstd::prelude::*;

verus! {

/// A point in screen space: integer pixel coordinates.
///
/// Coordinates are signed so that geometry helpers (bounding boxes,
/// barycentric tests) also work on points that lie outside the
/// framebuffer; the drawing routines themselves only ever produce
/// non-negative coordinates.
#[derive(Clone, Copy, Debug, PartialEq, Eq, Structural)]
pub struct Point2 {
    pub x: i32,
    pub y: i32,
}

impl Point2 {
    pub fn new(x: i32, y: i32) -> (r: Point2)
        ensures
            r.x == x,
            r.y == y,
    {
        Point2 { x, y }
    }
}

/// A screen-space point carrying a quantized depth in `z`.
#[derive(Clone, Copy, Debug, PartialEq, Eq, Structural)]
pub struct Point3 {
    pub x: i32,
    pub y: i32,
    pub z: i32,
}

impl Point3 {
    pub fn new(x: i32, y: i32, z: i32) -> (r: Point3)
        ensures
            r.x == x,
            r.y == y,
            r.z == z,
    {
        Point3 { x, y, z }
    }
}

} // verus!
