use vstd::prelude::*;
use crate::vertex::Vertex;

verus! {

/// A three-component vector in the same fixed-point coordinate scale as
/// [`Vertex`].
#[derive(Clone, Copy, Debug, PartialEq, Eq, Structural)]
pub struct Vector3 {
    pub x: i64,
    pub y: i64,
    pub z: i64,
}

impl Vector3 {
    pub fn new(x: i64, y: i64, z: i64) -> (r: Vector3)
        ensures
            r.x == x,
            r.y == y,
            r.z == z,
    {
        Vector3 { x, y, z }
    }
}

/// Conversion from a parsed mesh vertex into a math vector.
pub trait VecFrom<T>: Sized {
    /// The vector a vertex converts to.
    spec fn vec_from_spec(vertex: T) -> Self;

    fn from_vertex(vertex: T) -> (r: Self)
        ensures
            r == Self::vec_from_spec(vertex),
    ;
}

impl<'a> VecFrom<&'a Vertex> for Vector3 {
    open spec fn vec_from_spec(vert: &'a Vertex) -> Vector3 {
        Vector3 { x: vert.x, y: vert.y, z: vert.z }
    }

    fn from_vertex(vert: &'a Vertex) -> (r: Vector3) {
        Vector3 { x: vert.x, y: vert.y, z: vert.z }
    }
}

impl VecFrom<Vertex> for Vector3 {
    open spec fn vec_from_spec(vert: Vertex) -> Vector3 {
        Vector3 { x: vert.x, y: vert.y, z: vert.z }
    }

    fn from_vertex(vert: Vertex) -> (r: Vector3) {
        Vector3 { x: vert.x, y: vert.y, z: vert.z }
    }
}

} // verus!
