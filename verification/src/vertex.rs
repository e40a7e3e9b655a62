use vstd::prelude::*;

verus! {

/// The fixed-point unit: the normalized-device-coordinate value 1.0 is
/// stored as `NDC_ONE`, so a coordinate `c` stands for the rational
/// `c / NDC_ONE`.
pub const NDC_ONE: i64 = 65536;

/// A vertex in normalized device coordinates, each axis a fixed-point
/// number scaled by [`NDC_ONE`]. A vertex inside the normalized cube has
/// every coordinate in `[-NDC_ONE, NDC_ONE]`.
#[derive(Clone, Copy, Debug, PartialEq, Eq, Structural)]
pub struct Vertex {
    pub x: i64,
    pub y: i64,
    pub z: i64,
}

impl Vertex {
    pub fn new(x: i64, y: i64, z: i64) -> (r: Vertex)
        ensures
            r.x == x,
            r.y == y,
            r.z == z,
    {
        Vertex { x, y, z }
    }
}

} // verus!
