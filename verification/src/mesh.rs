//! The chunk mesh plan: for every vertex of the chunk grid, the integer
//! data that determines its position, texture coordinate and noise sample,
//! and the full triangle index buffer.
//!
//! The plan is the exact structure of the mesh the host evaluates: vertex
//! `i` of the plan corresponds one to one with position, normal and
//! texture-coordinate `i` of the rendered mesh, and the index buffer is
//! emitted here in its final form.

use vstd::prelude::*;
use vstd::arithmetic::div_mod::{
    lemma_div_pos_is_pos, lemma_fundamental_div_mod_converse, lemma_mod_bound,
    lemma_multiply_divide_lt, lemma_small_mod,
};

use crate::chunk::ChunkSpec;

verus! {

/// How one vertex takes the sampled height, following the chunk's
/// [`crate::chunk::BlendPolicy`].
#[derive(Clone, Copy, Debug, PartialEq, Eq, Structural)]
pub enum VertexShape {
    /// The vertex lies on the flat plane; the sampled height is ignored.
    Flat,
    /// The vertex interpolates between the displaced slope and the flat
    /// plane. The flat position's weight is `flat_weight_num / rows`; the
    /// displaced position's weight is the complement.
    Blended {
        /// Numerator of the flat position's interpolation weight, equal to
        /// `rows - z` for the vertex's local row `z` (denominator `rows`).
        flat_weight_num: u16,
    },
    /// The vertex takes the fully displaced slope position.
    Displaced,
}

/// Everything the host needs to evaluate one vertex: its grid coordinates,
/// the global coordinate to hand the noise sampler, the texture-coordinate
/// row numerator, and how the sampled height enters the position.
#[derive(Clone, Copy, Debug, PartialEq, Eq, Structural)]
pub struct VertexPlan {
    /// Local column, `0 ..= columns`.
    pub x: u16,
    /// Local row, `0 ..= rows`.
    pub z: u16,
    /// Global x coordinate for the noise sampler: `x + origin.0 * columns`.
    pub sample_x: i64,
    /// Global z coordinate for the noise sampler, mirrored along z:
    /// `(rows - z) + origin.1 * rows`.
    pub sample_z: i64,
    /// Numerator of the texture v coordinate: `z % (rows + 1)` (denominator
    /// `rows`).
    pub uv_row: u16,
    /// How the sampled height enters this vertex's position.
    pub shape: VertexShape,
}

/// Global sample x coordinate of local column `x`.
pub open spec fn sample_x_at(s: ChunkSpec, x: int) -> int {
    x + s.origin.0 * s.columns()
}

/// Global sample z coordinate of local row `z`: row 0 of the local grid
/// corresponds to the far edge of the sampled region, so the row is
/// mirrored before the chunk offset is added.
pub open spec fn sample_z_at(s: ChunkSpec, z: int) -> int {
    s.rows() - z + s.origin.1 * s.rows()
}

/// The shape of every vertex of local row `z`, as the chunk's blending
/// policy dictates.
pub open spec fn shape_at(s: ChunkSpec, z: int) -> VertexShape {
    if s.origin.1 > 0 {
        VertexShape::Flat
    } else if s.origin.1 == 0 {
        VertexShape::Blended { flat_weight_num: (s.rows() - z) as u16 }
    } else {
        VertexShape::Displaced
    }
}

/// The plan of vertex `i`, where vertices are laid out row-major: local
/// column `i % (columns + 1)`, local row `i / (columns + 1)`.
pub open spec fn vertex_at(s: ChunkSpec, i: int) -> VertexPlan {
    let x = i % (s.columns() + 1);
    let z = i / (s.columns() + 1);
    VertexPlan {
        x: x as u16,
        z: z as u16,
        sample_x: sample_x_at(s, x) as i64,
        sample_z: sample_z_at(s, z) as i64,
        uv_row: (z % (s.rows() + 1)) as u16,
        shape: shape_at(s, z),
    }
}

/// The whole vertex plan of a chunk: one entry per vertex, row-major.
pub open spec fn vertex_plan_seq(s: ChunkSpec) -> Seq<VertexPlan> {
    Seq::new(s.vertex_count() as nat, |i: int| vertex_at(s, i))
}

/// The product of an `i32` and a `u16` stays far inside `i64`.
pub(crate) proof fn lemma_mul_i32_u16_in_i64(a: int, b: int)
    requires
        -0x8000_0000 <= a <= 0x7fff_ffff,
        0 <= b <= 0xffff,
    ensures
        -0x8000_0000_0000 <= a * b <= 0x8000_0000_0000,
{
    assert(-0x8000_0000_0000 <= a * b <= 0x8000_0000_0000) by (nonlinear_arith)
        requires
            -0x8000_0000 <= a <= 0x7fff_ffff,
            0 <= b <= 0xffff,
    ;
}

/// Emits the vertex plan of `s`: exactly `(columns + 1) * (rows + 1)`
/// entries, entry `i` being the plan of vertex `i` in row-major order.
pub fn vertex_plans(s: &ChunkSpec) -> (v: Vec<VertexPlan>)
    requires
        s.wf(),
    ensures
        v@ == vertex_plan_seq(*s),
        v@.len() == s.vertex_count(),
{
    let columns: u32 = s.grid_size.0 as u32;
    let rows: u32 = s.grid_size.1 as u32;
    let mut v: Vec<VertexPlan> = Vec::new();
    let mut z: u32 = 0;
    while z <= rows
        invariant
            s.wf(),
            columns == s.columns(),
            rows == s.rows(),
            z <= rows + 1,
            v@.len() == z * (s.columns() + 1),
            forall|i: int| 0 <= i < v@.len() ==> v@[i] == vertex_at(*s, i),
        decreases rows + 1 - z,
    {
        let mut x: u32 = 0;
        while x <= columns
            invariant
                s.wf(),
                columns == s.columns(),
                rows == s.rows(),
                z <= rows,
                x <= columns + 1,
                v@.len() == z * (s.columns() + 1) + x,
                forall|i: int| 0 <= i < v@.len() ==> v@[i] == vertex_at(*s, i),
            decreases columns + 1 - x,
        {
            proof {
                lemma_mul_i32_u16_in_i64(s.origin.0 as int, s.grid_size.0 as int);
                lemma_mul_i32_u16_in_i64(s.origin.1 as int, s.grid_size.1 as int);
            }
            let sample_x: i64 = x as i64 + (s.origin.0 as i64) * (s.grid_size.0 as i64);
            let sample_z: i64 = (s.grid_size.1 as i64) - (z as i64) + (s.origin.1 as i64) * (
            s.grid_size.1 as i64);
            let uv_row: u16 = (z % (rows + 1)) as u16;
            let shape: VertexShape = if s.origin.1 > 0 {
                VertexShape::Flat
            } else if s.origin.1 == 0 {
                VertexShape::Blended { flat_weight_num: (rows - z) as u16 }
            } else {
                VertexShape::Displaced
            };
            let plan = VertexPlan {
                x: x as u16,
                z: z as u16,
                sample_x,
                sample_z,
                uv_row,
                shape,
            };
            proof {
                let c1 = s.columns() + 1;
                let i = v@.len() as int;
                lemma_fundamental_div_mod_converse(i, c1, z as int, x as int);
                lemma_small_mod(z as nat, (s.rows() + 1) as nat);
                assert(plan == vertex_at(*s, i));
            }
            v.push(plan);
            x = x + 1;
        }
        proof {
            assert((z + 1) * (s.columns() + 1) == z * (s.columns() + 1) + (s.columns() + 1))
                by (nonlinear_arith);
        }
        z = z + 1;
    }
    proof {
        assert(v@.len() == s.vertex_count()) by (nonlinear_arith)
            requires
                v@.len() == (s.rows() + 1) * (s.columns() + 1),
                s.vertex_count() == (s.columns() + 1) * (s.rows() + 1),
        ;
        assert(v@ =~= vertex_plan_seq(*s));
    }
    v
}

/// The `k`-th entry of a chunk's triangle index buffer, for a chunk with
/// `c` columns. Entries come in groups of six per quad, quads in row-major
/// order; each group names the quad's two triangles, wound so the surface
/// faces up under a counter-clockwise-front convention.
pub open spec fn index_at(c: int, k: int) -> int {
    let quad = k / 6;
    let corner = k % 6;
    let qx = quad % c;
    let qz = quad / c;
    let stride = c + 1;
    let base = qz * stride + qx;
    if corner == 0 {
        base + stride + 1
    } else if corner == 1 {
        base + 1
    } else if corner == 2 {
        base + stride
    } else if corner == 3 {
        base
    } else if corner == 4 {
        base + stride
    } else {
        base + 1
    }
}

/// The whole triangle index buffer of a chunk with `c` columns and `r`
/// rows: `6 * c * r` entries.
pub open spec fn index_seq(c: int, r: int) -> Seq<u32> {
    Seq::new((6 * c * r) as nat, |k: int| index_at(c, k) as u32)
}

/// Every entry of the index buffer names an existing vertex: it is
/// nonnegative and below the vertex count `(c + 1) * (r + 1)`.
pub proof fn lemma_index_at_bounds(c: int, r: int, k: int)
    requires
        c >= 1,
        r >= 1,
        0 <= k < 6 * c * r,
    ensures
        0 <= index_at(c, k) < (c + 1) * (r + 1),
{
    let quad = k / 6;
    let corner = k % 6;
    let qx = quad % c;
    let qz = quad / c;
    lemma_div_pos_is_pos(k, 6);
    lemma_mod_bound(k, 6);
    lemma_mod_bound(quad, c);
    lemma_div_pos_is_pos(quad, c);
    assert(6 * c * r == 6 * (c * r)) by (nonlinear_arith);
    lemma_multiply_divide_lt(k, 6, c * r);
    lemma_multiply_divide_lt(quad, c, r);
    assert(0 <= qz * (c + 1) + qx && qz * (c + 1) + qx + (c + 1) + 1 < (c + 1) * (r + 1))
        by (nonlinear_arith)
        requires
            0 <= qx < c,
            0 <= qz < r,
            c >= 1,
            r >= 1,
    ;
}

/// Emits the triangle index buffer of a chunk with `columns` columns and
/// `rows` rows: exactly `6 * columns * rows` entries, each below the vertex
/// count.
pub fn triangle_indices(columns: u16, rows: u16) -> (idx: Vec<u32>)
    requires
        columns >= 1,
        rows >= 1,
    ensures
        idx@ == index_seq(columns as int, rows as int),
        idx@.len() == 6 * (columns as int) * (rows as int),
        forall|k: int|
            0 <= k < idx@.len() ==> (idx@[k] as int) < ((columns as int) + 1) * ((
            rows as int) + 1),
{
    let c32: u32 = columns as u32;
    let r32: u32 = rows as u32;
    let stride: u32 = c32 + 1;
    let mut idx: Vec<u32> = Vec::new();
    let mut qz: u32 = 0;
    while qz < r32
        invariant
            columns >= 1,
            rows >= 1,
            c32 == columns,
            r32 == rows,
            stride == c32 + 1,
            qz <= r32,
            idx@.len() == 6 * ((qz as int) * (c32 as int)),
            forall|k: int| 0 <= k < idx@.len() ==> idx@[k] == index_at(c32 as int, k) as u32,
        decreases r32 - qz,
    {
        let mut qx: u32 = 0;
        while qx < c32
            invariant
                columns >= 1,
                rows >= 1,
                c32 == columns,
                r32 == rows,
                stride == c32 + 1,
                qz < r32,
                qx <= c32,
                idx@.len() == 6 * ((qz as int) * (c32 as int) + qx as int),
                forall|k: int| 0 <= k < idx@.len() ==> idx@[k] == index_at(c32 as int, k) as u32,
            decreases c32 - qx,
        {
            proof {
                assert((qz as int) * (stride as int) + qx as int + stride as int + 1
                    <= 0xffff_ffff) by (nonlinear_arith)
                    requires
                        qz as int <= 0xfffe,
                        qx as int <= 0xfffe,
                        stride as int <= 0x1_0000,
                ;
            }
            let base: u32 = qz * stride + qx;
            let ghost len0 = idx@.len() as int;
            // right triangle
            idx.push(base + stride + 1);
            idx.push(base + 1);
            idx.push(base + stride);
            // left triangle
            idx.push(base);
            idx.push(base + stride);
            idx.push(base + 1);
            proof {
                let ci = c32 as int;
                let n = (qz as int) * ci + qx as int;
                lemma_fundamental_div_mod_converse(n, ci, qz as int, qx as int);
                lemma_fundamental_div_mod_converse(6 * n + 0, 6, n, 0);
                lemma_fundamental_div_mod_converse(6 * n + 1, 6, n, 1);
                lemma_fundamental_div_mod_converse(6 * n + 2, 6, n, 2);
                lemma_fundamental_div_mod_converse(6 * n + 3, 6, n, 3);
                lemma_fundamental_div_mod_converse(6 * n + 4, 6, n, 4);
                lemma_fundamental_div_mod_converse(6 * n + 5, 6, n, 5);
                assert(idx@[len0 + 0] == index_at(ci, len0 + 0) as u32);
                assert(idx@[len0 + 1] == index_at(ci, len0 + 1) as u32);
                assert(idx@[len0 + 2] == index_at(ci, len0 + 2) as u32);
                assert(idx@[len0 + 3] == index_at(ci, len0 + 3) as u32);
                assert(idx@[len0 + 4] == index_at(ci, len0 + 4) as u32);
                assert(idx@[len0 + 5] == index_at(ci, len0 + 5) as u32);
            }
            qx = qx + 1;
        }
        proof {
            assert(6 * ((qz as int) * (c32 as int) + c32 as int) == 6 * (((qz as int) + 1) * (
            c32 as int))) by (nonlinear_arith);
        }
        qz = qz + 1;
    }
    proof {
        assert(6 * ((r32 as int) * (c32 as int)) == 6 * (c32 as int) * (r32 as int))
            by (nonlinear_arith);
        assert(idx@ =~= index_seq(columns as int, rows as int));
        assert forall|k: int| 0 <= k < idx@.len() implies (idx@[k] as int) < ((
        columns as int) + 1) * ((rows as int) + 1) by {
            lemma_index_at_bounds(columns as int, rows as int, k);
        }
    }
    idx
}

/// A chunk's complete mesh plan: the per-vertex data and the triangle
/// index buffer, index-aligned with the positions, normals and texture
/// coordinates the host evaluates from it.
#[derive(Debug)]
pub struct MeshPlan {
    /// One entry per vertex, row-major; same index correspondence as the
    /// evaluated positions, normals and texture coordinates.
    pub vertices: Vec<VertexPlan>,
    /// Triangle indices in groups of three; each names a vertex by its
    /// position in `vertices`.
    pub indices: Vec<u32>,
}

/// Builds the full mesh plan of a chunk: `(columns + 1) * (rows + 1)`
/// vertex entries and `6 * columns * rows` triangle indices, every index
/// naming an existing vertex.
pub fn build_plan(s: &ChunkSpec) -> (m: MeshPlan)
    requires
        s.wf(),
    ensures
        m.vertices@ == vertex_plan_seq(*s),
        m.indices@ == index_seq(s.columns(), s.rows()),
        m.vertices@.len() == s.vertex_count(),
        m.indices@.len() == s.index_count(),
        forall|k: int| 0 <= k < m.indices@.len() ==> (m.indices@[k] as int) < s.vertex_count(),
{
    let vertices = vertex_plans(s);
    let indices = triangle_indices(s.grid_size.0, s.grid_size.1);
    MeshPlan { vertices, indices }
}

/// The mesh plan is a pure function of the chunk description: two plans
/// built from the same description are identical, entry for entry. The
/// host's mesh is therefore bit-identical across rebuilds whenever the
/// height sampler is itself a pure function of its input coordinates.
pub proof fn lemma_plan_deterministic(
    s: ChunkSpec,
    v1: Seq<VertexPlan>,
    v2: Seq<VertexPlan>,
    i1: Seq<u32>,
    i2: Seq<u32>,
)
    requires
        v1 == vertex_plan_seq(s),
        v2 == vertex_plan_seq(s),
        i1 == index_seq(s.columns(), s.rows()),
        i2 == index_seq(s.columns(), s.rows()),
    ensures
        v1 == v2,
        i1 == i2,
{
}

/// On a boundary chunk (`origin.1 == 0`) the interpolation weights at the
/// two edge rows select the exact endpoint formulas: every vertex of the
/// near row (local `z == 0`) carries flat weight `rows` of `rows` — its
/// position is exactly the flat-plane formula — and every vertex of the
/// far row (local `z == rows`) carries flat weight `0` — its position is
/// exactly the displaced formula for the sampled height.
pub proof fn lemma_boundary_blend_endpoints(s: ChunkSpec)
    requires
        s.wf(),
        s.origin.1 == 0,
    ensures
        forall|i: int|
            0 <= i < s.columns() + 1 ==> #[trigger] vertex_plan_seq(s)[i].shape
                == (VertexShape::Blended { flat_weight_num: s.grid_size.1 }),
        forall|i: int|
            s.rows() * (s.columns() + 1) <= i < s.vertex_count()
                ==> #[trigger] vertex_plan_seq(s)[i].shape == (VertexShape::Blended {
                flat_weight_num: 0u16,
            }),
{
    let c1 = s.columns() + 1;
    assert forall|i: int| 0 <= i < c1 implies #[trigger] vertex_plan_seq(s)[i].shape
        == (VertexShape::Blended { flat_weight_num: s.grid_size.1 }) by {
        assert(s.vertex_count() == c1 * (s.rows() + 1));
        assert(c1 <= s.vertex_count()) by (nonlinear_arith)
            requires
                s.vertex_count() == c1 * (s.rows() + 1),
                c1 >= 1,
                s.rows() >= 1,
        ;
        lemma_fundamental_div_mod_converse(i, c1, 0, i);
    }
    assert forall|i: int| s.rows() * c1 <= i < s.vertex_count() implies #[trigger] vertex_plan_seq(
        s,
    )[i].shape == (VertexShape::Blended { flat_weight_num: 0u16 }) by {
        assert(s.vertex_count() == (s.rows() + 1) * c1) by (nonlinear_arith)
            requires
                s.vertex_count() == c1 * (s.rows() + 1),
        ;
        assert((s.rows() + 1) * c1 == s.rows() * c1 + c1) by (nonlinear_arith);
        lemma_fundamental_div_mod_converse(i, c1, s.rows(), i - s.rows() * c1);
    }
}

/// A chunk ahead of the reference row (`origin.1 > 0`) plans every vertex
/// flat: whatever the sampler returns, no height enters any position, so
/// every evaluated vertex has y-coordinate exactly zero.
pub proof fn lemma_forward_chunk_flat(s: ChunkSpec)
    requires
        s.wf(),
        s.origin.1 > 0,
    ensures
        forall|i: int|
            0 <= i < s.vertex_count() ==> #[trigger] vertex_plan_seq(s)[i].shape
                == VertexShape::Flat,
{
    assert forall|i: int| 0 <= i < s.vertex_count() implies #[trigger] vertex_plan_seq(s)[i].shape
        == VertexShape::Flat by {
        assert(vertex_plan_seq(s)[i] == vertex_at(s, i));
    }
}

} // verus!
