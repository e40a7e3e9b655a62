use vstd::prelude::*;
use crate::numeric::{lemma_mul_fits, lemma_round_half_up_bounds, round_half_up};
use crate::point::Point3;
use crate::renderer_error::RendererError;
use crate::vertex::{Vertex, NDC_ONE};
use crate::z_buffer::MAX_DEPTH;

verus! {

/// True when every coordinate of the vertex lies in the normalized
/// device cube `[-1, 1]` on each axis.
pub open spec fn in_normalized_device_coords(v: Vertex) -> bool {
    &&& -NDC_ONE <= v.x <= NDC_ONE
    &&& -NDC_ONE <= v.y <= NDC_ONE
    &&& -NDC_ONE <= v.z <= NDC_ONE
}

/// Where an in-range axis coordinate lands on an axis with `dim` pixels:
/// `(coord + 1) * (dim - 1) / 2`, so -1.0 maps to pixel 0 and +1.0 to the
/// last pixel index, rounded half away from zero.
pub open spec fn ndc_to_axis(coord: int, dim: int) -> int {
    round_half_up((coord + NDC_ONE) * (dim - 1), 2 * NDC_ONE)
}

/// Where an in-range z coordinate lands in the depth domain:
/// `(z + 1) * 255 / 2`, over the full domain rather than `dim - 1` — the
/// depth mapping deliberately differs from the axis mapping.
pub open spec fn ndc_to_depth(coord: int) -> int {
    round_half_up((coord + NDC_ONE) * (MAX_DEPTH as int), 2 * NDC_ONE)
}

/// The screen point an in-range vertex maps to on a w x h buffer.
pub open spec fn mapped_point(v: Vertex, w: int, h: int) -> Point3 {
    Point3 {
        x: ndc_to_axis(v.x as int, w) as i32,
        y: ndc_to_axis(v.y as int, h) as i32,
        z: ndc_to_depth(v.z as int) as i32,
    }
}

/// Maps vertices in normalized device coordinates onto the pixel grid of
/// one buffer, validating the range first.
pub struct VertexCoordinateMapper {
    buffer_width: u32,
    buffer_height: u32,
}

impl VertexCoordinateMapper {
    pub closed spec fn width_spec(&self) -> int {
        self.buffer_width as int
    }

    pub closed spec fn height_spec(&self) -> int {
        self.buffer_height as int
    }

    /// The buffer has at least one pixel per axis, and pixel indices fit
    /// the screen-point coordinate type.
    pub closed spec fn wf(&self) -> bool {
        &&& 1 <= self.buffer_width <= i32::MAX
        &&& 1 <= self.buffer_height <= i32::MAX
    }

    pub fn new(buffer_width: u32, buffer_height: u32) -> (r: Self)
        requires
            1 <= buffer_width <= i32::MAX,
            1 <= buffer_height <= i32::MAX,
        ensures
            r.wf(),
            r.width_spec() == buffer_width,
            r.height_spec() == buffer_height,
    {
        VertexCoordinateMapper { buffer_width, buffer_height }
    }

    /// Validates that the vertex lies in the normalized cube, then maps x
    /// and y onto the pixel grid and z onto the depth domain. A vertex
    /// out of range is rejected whole: the error carries it back and
    /// nothing is computed for it.
    pub fn map_vertex_coords_to_pixel_coords(&self, v: &Vertex) -> (r: Result<
        Point3,
        RendererError,
    >)
        requires
            self.wf(),
        ensures
            match r {
                Ok(p) => {
                    &&& in_normalized_device_coords(*v)
                    &&& p.x == ndc_to_axis(v.x as int, self.width_spec())
                    &&& p.y == ndc_to_axis(v.y as int, self.height_spec())
                    &&& p.z == ndc_to_depth(v.z as int)
                    &&& 0 <= p.x < self.width_spec()
                    &&& 0 <= p.y < self.height_spec()
                    &&& 0 <= p.z <= MAX_DEPTH
                    &&& p == mapped_point(*v, self.width_spec(), self.height_spec())
                },
                Err(e) => {
                    &&& !in_normalized_device_coords(*v)
                    &&& e == RendererError::NotInNormalizedDeviceCoords(*v)
                },
            },
    {
        check_if_in_normalized_device_coordinates(v)?;
        Ok(Point3::new(
            map_axis(v.x, self.buffer_width),
            map_axis(v.y, self.buffer_height),
            map_depth(v.z),
        ))
    }
}

/// The range check on its own: every axis must lie in `[-1, 1]`.
fn check_if_in_normalized_device_coordinates(v: &Vertex) -> (r: Result<(), RendererError>)
    ensures
        match r {
            Ok(_) => in_normalized_device_coords(*v),
            Err(e) => {
                &&& !in_normalized_device_coords(*v)
                &&& e == RendererError::NotInNormalizedDeviceCoords(*v)
            },
        },
{
    if v.x > NDC_ONE || v.y > NDC_ONE || v.x < -NDC_ONE || v.y < -NDC_ONE || v.z > NDC_ONE
        || v.z < -NDC_ONE {
        Err(RendererError::NotInNormalizedDeviceCoords(*v))
    } else {
        Ok(())
    }
}

/// One axis of the mapping, on in-range input; the result always lands on
/// the pixel grid.
fn map_axis(coord: i64, dim: u32) -> (r: i32)
    requires
        -NDC_ONE <= coord <= NDC_ONE,
        1 <= dim <= i32::MAX,
    ensures
        r == ndc_to_axis(coord as int, dim as int),
        0 <= r < dim,
{
    proof {
        lemma_mul_fits(coord + NDC_ONE, dim - 1, 2 * NDC_ONE as int, i32::MAX as int);
        assert((coord + NDC_ONE) * ((dim - 1) as int) <= ((dim - 1) as int) * (2 * NDC_ONE))
            by (nonlinear_arith)
            requires
                0 <= coord + NDC_ONE <= 2 * NDC_ONE,
                0 <= (dim - 1) as int,
        ;
        assert(0 <= (coord + NDC_ONE) * ((dim - 1) as int)) by (nonlinear_arith)
            requires
                0 <= coord + NDC_ONE,
                0 <= (dim - 1) as int,
        ;
        lemma_round_half_up_bounds(
            (coord + NDC_ONE) * ((dim - 1) as int),
            2 * NDC_ONE as int,
            0,
            (dim - 1) as int,
        );
    }
    let num: i64 = (coord + NDC_ONE) * ((dim - 1) as i64);
    let den: i64 = 2 * NDC_ONE;
    let q: u64 = ((2 * num + den) as u64) / ((2 * den) as u64);
    q as i32
}

/// The z mapping onto the depth domain, on in-range input.
fn map_depth(coord: i64) -> (r: i32)
    requires
        -NDC_ONE <= coord <= NDC_ONE,
    ensures
        r == ndc_to_depth(coord as int),
        0 <= r <= MAX_DEPTH,
{
    proof {
        assert(0 <= (coord + NDC_ONE) * (MAX_DEPTH as int)
            <= (MAX_DEPTH as int) * (2 * NDC_ONE)) by (nonlinear_arith)
            requires
                0 <= coord + NDC_ONE <= 2 * NDC_ONE,
        ;
        lemma_round_half_up_bounds(
            (coord + NDC_ONE) * (MAX_DEPTH as int),
            2 * NDC_ONE as int,
            0,
            MAX_DEPTH as int,
        );
    }
    let num: i64 = (coord + NDC_ONE) * (MAX_DEPTH as i64);
    let den: i64 = 2 * NDC_ONE;
    let q: u64 = ((2 * num + den) as u64) / ((2 * den) as u64);
    q as i32
}

} // verus!
