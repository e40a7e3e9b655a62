use vstd::prelude::*;
use crate::point::Point2;
use crate::vertex::Vertex;

verus! {

/// The two ways a drawing call can be rejected. Either way the caller's
/// buffers are left untouched.
#[derive(Clone, Copy, Debug, PartialEq, Eq, Structural)]
pub enum RendererError {
    /// A pixel coordinate fell outside a buffer of the given width and
    /// height.
    PixelOutOfImageBounds(u32, u32, Point2),
    /// A vertex coordinate fell outside the normalized device cube.
    NotInNormalizedDeviceCoords(Vertex),
}

} // verus!
