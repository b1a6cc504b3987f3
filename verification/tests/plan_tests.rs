use terrain_mesh::chunk::{BlendPolicy, ChunkSpec};
use terrain_mesh::mesh::{build_plan, triangle_indices, vertex_plans, VertexPlan, VertexShape};
use terrain_mesh::placement::world_offset_factors;

/// A deterministic stand-in for a noise source: a pure function of the
/// sample coordinates.
fn checkerboard_height(sample_x: i64, sample_z: i64) -> f32 {
    if (sample_x + sample_z).rem_euclid(2) == 0 {
        3.5
    } else {
        -1.25
    }
}

fn rotate_x_45(v: [f32; 3]) -> [f32; 3] {
    let angle = std::f32::consts::FRAC_PI_4;
    let (s, c) = (angle.sin(), angle.cos());
    [v[0], v[1] * c - v[2] * s, v[1] * s + v[2] * c]
}

fn lerp3(a: [f32; 3], b: [f32; 3], t: f32) -> [f32; 3] {
    [
        a[0] + (b[0] - a[0]) * t,
        a[1] + (b[1] - a[1]) * t,
        a[2] + (b[2] - a[2]) * t,
    ]
}

/// Evaluates one planned vertex to its floating-point position, the way a
/// host consumes the plan: `h` is the sampled height at the vertex's
/// sample coordinates.
fn eval_position(plan: &VertexPlan, spec: &ChunkSpec, quad: [f32; 2], h: f32) -> [f32; 3] {
    let columns = spec.grid_size.0 as f32;
    let rows = spec.grid_size.1 as f32;
    let tx = plan.x as f32 / columns - 0.5;
    let x_position = tx * columns * quad[0];
    let z_position = plan.z as f32 * quad[1];
    let sloped = [x_position, -z_position, z_position];
    let unsloped = [x_position, 0.0, z_position];
    let sloped_noise = rotate_x_45([0.0, h, 0.0]);
    let target = [
        sloped[0] + sloped_noise[0],
        sloped[1] + sloped_noise[1],
        sloped[2] + sloped_noise[2],
    ];
    match plan.shape {
        VertexShape::Flat => unsloped,
        VertexShape::Displaced => target,
        VertexShape::Blended { flat_weight_num } => {
            lerp3(target, unsloped, flat_weight_num as f32 / rows)
        }
    }
}

fn eval_mesh(spec: &ChunkSpec, quad: [f32; 2]) -> (Vec<[f32; 3]>, Vec<u32>) {
    let plan = build_plan(spec);
    let positions: Vec<[f32; 3]> = plan
        .vertices
        .iter()
        .map(|v| {
            let h = checkerboard_height(v.sample_x, v.sample_z);
            eval_position(v, spec, quad, h)
        })
        .collect();
    (positions, plan.indices)
}

#[test]
fn vertex_and_index_cardinality() {
    for &(c, r) in &[(1u16, 1u16), (1, 5), (7, 3), (10, 10), (50, 50)] {
        let spec = ChunkSpec::new((0, 0), (c, r), 0);
        let plan = build_plan(&spec);
        assert_eq!(plan.vertices.len(), (c as usize + 1) * (r as usize + 1));
        assert_eq!(plan.indices.len(), 6 * c as usize * r as usize);
    }
}

#[test]
fn every_index_names_a_vertex() {
    for &(c, r) in &[(1u16, 1u16), (2, 1), (1, 2), (9, 4), (33, 17)] {
        let idx = triangle_indices(c, r);
        let vertex_count = (c as u32 + 1) * (r as u32 + 1);
        for &i in &idx {
            assert!(i < vertex_count);
        }
    }
}

#[test]
fn smallest_chunk_index_buffer() {
    let idx = triangle_indices(1, 1);
    assert_eq!(idx, vec![3, 1, 2, 0, 2, 1]);
}

#[test]
fn two_quad_index_buffer() {
    let idx = triangle_indices(2, 1);
    assert_eq!(idx, vec![4, 1, 3, 0, 3, 1, 5, 2, 4, 1, 4, 2]);
}

#[test]
fn build_is_deterministic() {
    let spec = ChunkSpec::new((-2, -1), (12, 9), 42);
    let (p1, i1) = eval_mesh(&spec, [2.0, 2.0]);
    let (p2, i2) = eval_mesh(&spec, [2.0, 2.0]);
    assert_eq!(i1, i2);
    assert_eq!(p1.len(), p2.len());
    for (a, b) in p1.iter().zip(p2.iter()) {
        assert_eq!(a[0].to_bits(), b[0].to_bits());
        assert_eq!(a[1].to_bits(), b[1].to_bits());
        assert_eq!(a[2].to_bits(), b[2].to_bits());
    }
}

#[test]
fn sample_coordinates_follow_origin() {
    let spec = ChunkSpec::new((2, -3), (10, 10), 7);
    let vertices = vertex_plans(&spec);
    // vertex at local x = 3, z = 4 sits at entry 4 * 11 + 3
    let v = &vertices[4 * 11 + 3];
    assert_eq!(v.x, 3);
    assert_eq!(v.z, 4);
    assert_eq!(v.sample_x, 3 + 2 * 10);
    assert_eq!(v.sample_z, (10 - 4) + (-3) * 10);
    assert_eq!(v.uv_row, 4);
}

#[test]
fn blend_policy_follows_origin_row_sign() {
    assert_eq!(
        ChunkSpec::new((5, 3), (4, 4), 0).blend_policy(),
        BlendPolicy::Forward
    );
    assert_eq!(
        ChunkSpec::new((5, 0), (4, 4), 0).blend_policy(),
        BlendPolicy::Boundary
    );
    assert_eq!(
        ChunkSpec::new((5, -1), (4, 4), 0).blend_policy(),
        BlendPolicy::Behind
    );
}

#[test]
fn forward_chunk_is_exactly_flat() {
    let spec = ChunkSpec::new((0, 2), (6, 6), 0);
    let plan = build_plan(&spec);
    for v in &plan.vertices {
        assert_eq!(v.shape, VertexShape::Flat);
    }
    let (positions, _) = eval_mesh(&spec, [2.0, 2.0]);
    for p in &positions {
        assert_eq!(p[1], 0.0);
    }
}

#[test]
fn boundary_chunk_edge_rows_hit_the_endpoint_formulas() {
    let spec = ChunkSpec::new((0, 0), (4, 4), 0);
    let quad = [2.0_f32, 2.0];
    let plan = build_plan(&spec);
    let columns = 4.0_f32;
    let tol = 1e-5_f32;
    for v in &plan.vertices {
        let h = checkerboard_height(v.sample_x, v.sample_z);
        let pos = eval_position(v, &spec, quad, h);
        let tx = v.x as f32 / columns - 0.5;
        let x_position = tx * columns * quad[0];
        let z_position = v.z as f32 * quad[1];
        if v.z == 0 {
            // near edge: exactly the flat-plane formula
            assert_eq!(v.shape, VertexShape::Blended { flat_weight_num: 4 });
            assert!((pos[0] - x_position).abs() <= tol);
            assert!(pos[1].abs() <= tol);
            assert!((pos[2] - z_position).abs() <= tol);
        } else if v.z == 4 {
            // far edge: exactly the displaced formula for the sampled height
            assert_eq!(v.shape, VertexShape::Blended { flat_weight_num: 0 });
            let sloped_noise = rotate_x_45([0.0, h, 0.0]);
            assert!((pos[0] - x_position).abs() <= tol);
            assert!((pos[1] - (-z_position + sloped_noise[1])).abs() <= tol);
            assert!((pos[2] - (z_position + sloped_noise[2])).abs() <= tol);
        }
    }
}

#[test]
fn default_chunk_is_50_by_50_at_the_origin() {
    let spec = ChunkSpec::default();
    assert_eq!(spec, ChunkSpec::new((0, 0), (50, 50), 0));
}

#[test]
fn placement_factors_match_the_formula() {
    let spec = ChunkSpec::new((2, -3), (10, 10), 0);
    let (fx, fy, fz) = world_offset_factors(&spec);
    assert_eq!(fx, 2 * 10);
    assert_eq!(fy, -3 * 10);
    assert_eq!(fz, 3 * 10);
    // with quad size (2, 2) the world offset is (40, -60, 60)
    let quad = [2.0_f32, 2.0];
    assert_eq!(fx as f32 * quad[0], 40.0);
    assert_eq!(fy as f32 * quad[1], -60.0);
    assert_eq!(fz as f32 * quad[1], 60.0);
}

#[test]
fn placement_forward_chunk_gets_no_downward_shift() {
    let spec = ChunkSpec::new((-1, 4), (8, 8), 0);
    let (fx, fy, fz) = world_offset_factors(&spec);
    assert_eq!(fx, -8);
    assert_eq!(fy, 0);
    assert_eq!(fz, -32);
}
