//! Procedural terrain-chunk geometry: the deterministic structure of a
//! chunk mesh (vertex layout, triangle indices, sample coordinates, the
//! seam-blending policy), the chunk's world-placement factors, and a small
//! debug texture pattern.
//!
//! Everything here is pure integer and byte computation with proved
//! contracts. The floating-point evaluation of vertex positions and the
//! host rendering engine's types stay outside the verified core; callers
//! consume the per-vertex plan this crate emits.

pub mod chunk;
pub mod mesh;
pub mod placement;
pub mod texture;
