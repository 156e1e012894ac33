use box_render::mesh::generate;
use box_render::mesh::Vertex;
use box_render::mesh::VertexAttr;
use box_render::mesh::VertexPos;

/// Evaluate the symbolic position of a vertex of an `n`-gon: the origin
/// for the center, the unit-circle point at angle `2π·step/n` for a
/// perimeter vertex. Trigonometry runs in `f64` and is cut to the `f32`
/// the GPU record would hold.
fn position_of(v: &Vertex, n: u32) -> (f32, f32, f32) {
    match v.pos {
        VertexPos::Center => (0.0, 0.0, 0.0),
        VertexPos::Rim { step } => {
            let angle = (step as f64 / n as f64) * (2.0 * std::f64::consts::PI);
            (angle.cos() as f32, angle.sin() as f32, 0.0)
        }
    }
}

/// Evaluate the texture coordinates of a vertex: its position remapped
/// into the unit square, `(x/2 + 0.5, y/2 + 0.5)`.
fn uv_of(v: &Vertex, n: u32) -> (f32, f32) {
    match v.pos {
        VertexPos::Center => (0.5, 0.5),
        VertexPos::Rim { step } => {
            let angle = (step as f64 / n as f64) * (2.0 * std::f64::consts::PI);
            (
                (angle.cos() / 2.0 + 0.5) as f32,
                (angle.sin() / 2.0 + 0.5) as f32,
            )
        }
    }
}

#[test]
fn triangle_colored_scenario() {
    let p = generate(3, false);
    assert_eq!(p.sides, 3);
    assert_eq!(p.vertices.len(), 4);
    assert_eq!(p.indices.len(), 9);
    assert_eq!(p.indices, vec![0, 1, 2, 0, 2, 3, 0, 3, 1]);
    assert_eq!(p.vertices[0].pos, VertexPos::Center);
    assert_eq!(p.vertices[0].attr, VertexAttr::Color { palette: 0 });
    for i in 0..3u32 {
        assert_eq!(p.vertices[i as usize + 1].pos, VertexPos::Rim { step: i });
        assert_eq!(
            p.vertices[i as usize + 1].attr,
            VertexAttr::Color {
                palette: (i + 1) % 2 + 1
            }
        );
    }
}

#[test]
fn hexagon_textured_scenario() {
    let p = generate(6, true);
    assert_eq!(p.sides, 6);
    assert_eq!(p.vertices.len(), 7);
    assert_eq!(p.indices.len(), 18);
    assert_eq!(
        p.indices,
        vec![0, 1, 2, 0, 2, 3, 0, 3, 4, 0, 4, 5, 0, 5, 6, 0, 6, 1]
    );
    assert_eq!(p.vertices[0].pos, VertexPos::Center);
    for (k, v) in p.vertices.iter().enumerate() {
        assert_eq!(v.attr, VertexAttr::TextureCoords);
        if k > 0 {
            assert_eq!(v.pos, VertexPos::Rim { step: k as u32 - 1 });
        }
    }

    // The coordinates of the hexagon, written out from the formula:
    // position (cos θ, sin θ, 0), texture coordinates
    // (cos θ / 2 + 0.5, sin θ / 2 + 0.5), θ = 2π·i/6.
    let expected = [
        ([0.0, 0.0, 0.0], [0.5, 0.5]),
        ([1.0, 0.0, 0.0], [1.0, 0.5]),
        ([0.5, 0.866_025_4, 0.0], [0.75, 0.933_012_7]),
        ([-0.5, 0.866_025_4, 0.0], [0.25, 0.933_012_7]),
        ([-1.0, 0.0, 0.0], [0.0, 0.5]),
        ([-0.5, -0.866_025_4, 0.0], [0.25, 0.066_987_3]),
        ([0.5, -0.866_025_4, 0.0], [0.75, 0.066_987_3]),
    ];
    for (k, v) in p.vertices.iter().enumerate() {
        let (x, y, z) = position_of(v, 6);
        let (u, w) = uv_of(v, 6);
        let (ep, euv) = expected[k];
        assert!((x - ep[0]).abs() <= 1e-6, "vertex {k} x: {x}");
        assert!((y - ep[1]).abs() <= 1e-6, "vertex {k} y: {y}");
        assert_eq!(z, ep[2]);
        assert!((u - euv[0]).abs() <= 1e-6, "vertex {k} u: {u}");
        assert!((w - euv[1]).abs() <= 1e-6, "vertex {k} v: {w}");
    }
}

#[test]
fn hexagon_quarter_angle_uvs_exact() {
    // Vertex 1 sits at angle 0, vertex 4 at angle π: their texture
    // coordinates are exactly (1.0, 0.5) and (0.0, 0.5).
    let p = generate(6, true);
    assert_eq!(p.vertices[1].pos, VertexPos::Rim { step: 0 });
    assert_eq!(uv_of(&p.vertices[1], 6), (1.0, 0.5));
    assert_eq!(p.vertices[4].pos, VertexPos::Rim { step: 3 });
    assert_eq!(uv_of(&p.vertices[4], 6), (0.0, 0.5));
}

#[test]
fn generate_is_deterministic() {
    for sides in [3u32, 4, 6, 11] {
        for textured in [false, true] {
            let p1 = generate(sides, textured);
            let p2 = generate(sides, textured);
            assert_eq!(p1, p2);
        }
    }
}

#[test]
fn vertex_and_index_counts() {
    for sides in [3u32, 4, 5, 6, 7, 12, 100, 65535] {
        let p = generate(sides, false);
        assert_eq!(p.vertices.len() as u32, sides + 1);
        assert_eq!(p.indices.len() as u32, sides * 3);
    }
}

#[test]
fn indices_stay_in_range() {
    for sides in [3u32, 4, 5, 9, 257] {
        let p = generate(sides, true);
        for &ix in &p.indices {
            assert!((ix as u32) < sides + 1);
        }
    }
}

#[test]
fn fan_covers_every_perimeter_edge_once() {
    for sides in [3u32, 4, 5, 8, 33] {
        let p = generate(sides, false);
        let mut seen = vec![0u32; sides as usize + 1];
        for t in 0..sides as usize {
            let a = p.indices[3 * t];
            let b = p.indices[3 * t + 1];
            let c = p.indices[3 * t + 2];
            // Every triangle is anchored at the center vertex.
            assert_eq!(a, 0);
            // Its outer edge runs from a perimeter vertex to its
            // counterclockwise successor.
            let succ = if (b as u32) < sides { b + 1 } else { 1 };
            assert_eq!(c, succ);
            seen[b as usize] += 1;
        }
        // Each perimeter vertex starts exactly one outer edge.
        assert_eq!(seen[0], 0);
        for v in 1..=sides as usize {
            assert_eq!(seen[v], 1);
        }
    }
}

#[test]
fn colored_palette_alternates() {
    let p = generate(6, false);
    let expected = [0u32, 2, 1, 2, 1, 2, 1];
    for (k, v) in p.vertices.iter().enumerate() {
        assert_eq!(
            v.attr,
            VertexAttr::Color {
                palette: expected[k]
            }
        );
    }
}
