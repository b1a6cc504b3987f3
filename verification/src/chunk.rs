//! The chunk description and the height-blending policy derived from it.

use vstd::prelude::*;

verus! {

/// Describes one rectangular tile ("chunk") of the infinite terrain grid.
///
/// `grid_size` is the number of quads along the local x axis (columns) and
/// the local z axis (rows); the vertex grid is one larger along each axis.
/// `origin` is the chunk's coordinate in the infinite chunk grid (chunk
/// space, not world space). `noise_seed` is threaded through to the height
/// sampler unchanged; the builder itself never reads it.
///
/// The world-space edge length of one quad is a floating-point scale that
/// the host applies when it evaluates the per-vertex plan; it plays no role
/// in the integer structure this crate computes, so it is not part of the
/// description here.
#[derive(Clone, Copy, Debug, PartialEq, Eq)]
pub struct ChunkSpec {
    /// Quads along x (columns) and z (rows); each must be at least 1.
    pub grid_size: (u16, u16),
    /// Position of the chunk in the infinite chunk grid.
    pub origin: (i32, i32),
    /// Opaque seed handed to the height sampler.
    pub noise_seed: u32,
}

/// How a chunk's vertices take the sampled height, decided by the sign of
/// `origin.1` (the chunk's row in the infinite grid).
///
/// - `Forward` (`origin.1 > 0`): every vertex lies on the flat plane; the
///   sampled height is ignored.
/// - `Boundary` (`origin.1 == 0`): each vertex interpolates between the
///   displaced slope and the flat plane, so the chunk's near edge meets the
///   flat neighbour without a seam.
/// - `Behind` (`origin.1 < 0`): every vertex takes the full displaced slope.
#[derive(Clone, Copy, Debug, PartialEq, Eq, Structural)]
pub enum BlendPolicy {
    /// Fully flat: the chunk is ahead of the reference row.
    Forward,
    /// The reference row: blend from flat (near edge) to displaced (far edge).
    Boundary,
    /// Fully displaced: the chunk is behind the reference row.
    Behind,
}

impl Default for ChunkSpec {
    /// The default chunk: a 50 by 50 quad grid at the origin of the chunk
    /// grid, with seed 0.
    fn default() -> (s: Self)
        ensures
            s.origin == (0i32, 0i32),
            s.grid_size == (50u16, 50u16),
            s.noise_seed == 0u32,
            s.wf(),
    {
        ChunkSpec::new((0, 0), (50, 50), 0)
    }
}

impl ChunkSpec {
    /// A chunk description is well formed when both grid axes have at least
    /// one quad.
    pub open spec fn wf(self) -> bool {
        self.grid_size.0 >= 1 && self.grid_size.1 >= 1
    }

    /// Number of quads along the local x axis.
    pub open spec fn columns(self) -> int {
        self.grid_size.0 as int
    }

    /// Number of quads along the local z axis.
    pub open spec fn rows(self) -> int {
        self.grid_size.1 as int
    }

    /// Number of vertices of the chunk mesh: one more than the quad count
    /// along each axis.
    pub open spec fn vertex_count(self) -> int {
        (self.columns() + 1) * (self.rows() + 1)
    }

    /// Number of triangle indices of the chunk mesh: two triangles of three
    /// indices for every quad.
    pub open spec fn index_count(self) -> int {
        6 * self.columns() * self.rows()
    }

    /// The blending policy the chunk falls under, as a function of the sign
    /// of `origin.1`.
    pub open spec fn policy_spec(self) -> BlendPolicy {
        if self.origin.1 > 0 {
            BlendPolicy::Forward
        } else if self.origin.1 == 0 {
            BlendPolicy::Boundary
        } else {
            BlendPolicy::Behind
        }
    }

    /// Builds a chunk description from its grid position, quad counts and
    /// sampler seed.
    pub fn new(origin: (i32, i32), grid_size: (u16, u16), noise_seed: u32) -> (s: Self)
        ensures
            s.origin == origin,
            s.grid_size == grid_size,
            s.noise_seed == noise_seed,
    {
        ChunkSpec { grid_size, origin, noise_seed }
    }

    /// Returns the chunk's blending policy.
    pub fn blend_policy(&self) -> (p: BlendPolicy)
        ensures
            p == self.policy_spec(),
    {
        if self.origin.1 > 0 {
            BlendPolicy::Forward
        } else if self.origin.1 == 0 {
            BlendPolicy::Boundary
        } else {
            BlendPolicy::Behind
        }
    }
}

} // verus!
