//! Where a chunk stands in the world: the integer factors of its
//! world-space translation.
//!
//! The world offset of a chunk is each factor here multiplied by the
//! matching quad-size component, a floating-point scale the host applies:
//! `world_x = x_factor * quad_size.x`, `world_y = y_factor * quad_size.y`,
//! `world_z = z_factor * quad_size.y`.

use vstd::prelude::*;

use crate::chunk::ChunkSpec;
use crate::mesh::lemma_mul_i32_u16_in_i64;

verus! {

/// Factor of the world x translation: `origin.0 * columns`.
pub open spec fn world_x_factor(s: ChunkSpec) -> int {
    s.origin.0 * s.columns()
}

/// Factor of the world y translation: `min(origin.1, 0) * rows`. Only
/// chunks at or behind the reference row are shifted downward, matching
/// the ramp the blending policy carves.
pub open spec fn world_y_factor(s: ChunkSpec) -> int {
    (if s.origin.1 <= 0 {
        s.origin.1 as int
    } else {
        0
    }) * s.rows()
}

/// Factor of the world z translation: `-(origin.1 * rows)`. Chunks are
/// laid out along world z opposite to increasing `origin.1`.
pub open spec fn world_z_factor(s: ChunkSpec) -> int {
    -(s.origin.1 * s.rows())
}

/// Computes the three placement factors of a chunk. The host multiplies
/// each by the matching quad-size component to obtain the chunk's
/// world-space translation.
pub fn world_offset_factors(s: &ChunkSpec) -> (f: (i64, i64, i64))
    ensures
        f.0 == world_x_factor(*s),
        f.1 == world_y_factor(*s),
        f.2 == world_z_factor(*s),
{
    proof {
        lemma_mul_i32_u16_in_i64(s.origin.0 as int, s.grid_size.0 as int);
        lemma_mul_i32_u16_in_i64(s.origin.1 as int, s.grid_size.1 as int);
    }
    let x_factor: i64 = (s.origin.0 as i64) * (s.grid_size.0 as i64);
    let clamped_row: i64 = if s.origin.1 <= 0 {
        s.origin.1 as i64
    } else {
        0
    };
    proof {
        lemma_mul_i32_u16_in_i64(clamped_row as int, s.grid_size.1 as int);
    }
    let y_factor: i64 = clamped_row * (s.grid_size.1 as i64);
    let z_factor: i64 = -((s.origin.1 as i64) * (s.grid_size.1 as i64));
    (x_factor, y_factor, z_factor)
}

} // verus!
