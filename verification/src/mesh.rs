//! Procedural polygon mesh generator.
//!
//! A polygon with `sides` sides is built as one center vertex plus one
//! perimeter vertex per side, triangulated as a fan anchored at the center.
//! Perimeter vertex `i` sits on the unit circle at angle `2π·i/sides`; the
//! library keeps that position symbolically (as the step `i`), and the host
//! program evaluates the trigonometry when it uploads the mesh to the GPU:
//! position `(cos θ, sin θ, 0)`, and for the textured variant texture
//! coordinates `(cos θ / 2 + 0.5, sin θ / 2 + 0.5)` (the center maps to
//! `(0, 0, 0)` and `(0.5, 0.5)`).

use vstd::prelude::*;

verus! {

/// Which attribute accompanies each vertex position: a palette color or
/// texture coordinates. Chosen once at startup, shared by a whole mesh.
#[derive(Clone, Copy, Debug, PartialEq, Eq, Structural)]
pub enum VertexKind {
    Colored,
    Textured,
}

/// Symbolic position of a mesh vertex.
#[derive(Clone, Copy, Debug, PartialEq, Eq, Structural)]
pub enum VertexPos {
    /// The origin, `(0, 0, 0)`.
    Center,
    /// The point on the unit circle at angle `2π·step/sides`.
    Rim { step: u32 },
}

/// The non-position attribute of a mesh vertex.
#[derive(Clone, Copy, Debug, PartialEq, Eq, Structural)]
pub enum VertexAttr {
    /// An entry of the three-entry palette (see [`crate::color`]).
    Color { palette: u32 },
    /// Texture coordinates, derived from the position: the unit-circle
    /// point remapped into the unit square, `(x/2 + 0.5, y/2 + 0.5)`.
    TextureCoords,
}

/// One mesh vertex: a symbolic position and its attribute.
#[derive(Clone, Copy, Debug, PartialEq, Eq, Structural)]
pub struct Vertex {
    pub pos: VertexPos,
    pub attr: VertexAttr,
}

/// A generated polygon mesh: the side count, the vertex sequence (center
/// first, then the perimeter in counterclockwise order) and the index
/// sequence of the fan triangulation. Built once, immutable afterwards.
#[derive(Debug, PartialEq, Eq)]
pub struct Polygon {
    pub sides: u32,
    pub vertices: Vec<Vertex>,
    pub indices: Vec<u16>,
}

/// The palette entry of perimeter vertex `step`: alternates between the
/// second and third entry of the three-entry palette.
pub open spec fn rim_palette(step: int) -> int {
    (step + 1) % 2 + 1
}

/// The vertex at position `k` of a generated mesh: the center for `k == 0`,
/// perimeter vertex `k - 1` otherwise. The center's attribute is the first
/// palette entry (colored) or the middle of the unit square (textured).
pub open spec fn mesh_vertex(textured: bool, k: int) -> Vertex {
    if k == 0 {
        Vertex {
            pos: VertexPos::Center,
            attr: if textured {
                VertexAttr::TextureCoords
            } else {
                VertexAttr::Color { palette: 0 }
            },
        }
    } else {
        Vertex {
            pos: VertexPos::Rim { step: (k - 1) as u32 },
            attr: if textured {
                VertexAttr::TextureCoords
            } else {
                VertexAttr::Color { palette: rim_palette(k - 1) as u32 }
            },
        }
    }
}

/// The index at position `k` of the fan triangulation. Triangle `t` holds
/// the indices `(0, t + 1, t + 2)`, except the closing triangle
/// `t == sides - 1`, which holds `(0, sides, 1)`.
pub open spec fn mesh_index(sides: int, k: int) -> int {
    if k % 3 == 0 {
        0
    } else if k / 3 < sides - 1 {
        if k % 3 == 1 { k / 3 + 1 } else { k / 3 + 2 }
    } else {
        if k % 3 == 1 { sides } else { 1 }
    }
}

/// The perimeter vertex that follows `v` counterclockwise: `v + 1`, and
/// back to `1` after the last perimeter vertex.
pub open spec fn rim_successor(sides: int, v: int) -> int {
    if v < sides { v + 1 } else { 1 }
}

/// The index position at which the triangulation records the perimeter
/// edge that starts at perimeter vertex `v`: the middle entry of
/// triangle `v - 1`.
pub open spec fn edge_slot(v: int) -> int {
    3 * (v - 1) + 1
}

impl Polygon {
    /// Structural soundness: the advertised side count matches the vertex
    /// and index sequences, every index refers to an existing vertex, and
    /// every perimeter step lies below the side count.
    pub open spec fn wf(self) -> bool {
        &&& 3 <= self.sides <= 0xFFFF
        &&& self.vertices@.len() == self.sides + 1
        &&& self.indices@.len() == 3 * self.sides
        &&& forall|k: int|
            0 <= k < self.indices@.len() ==> (self.indices@[k] as int) < self.sides + 1
        &&& forall|k: int|
            0 <= k < self.vertices@.len() ==> match (#[trigger] self.vertices@[k]).pos {
                VertexPos::Center => k == 0,
                VertexPos::Rim { step } => step < self.sides,
            }
    }

    /// Exactly the mesh that `generate(sides, textured)` describes.
    pub open spec fn generated_from(self, sides: u32, textured: bool) -> bool {
        &&& self.sides == sides
        &&& self.vertices@.len() == sides + 1
        &&& self.indices@.len() == 3 * sides
        &&& forall|k: int|
            0 <= k < sides + 1 ==> #[trigger] self.vertices@[k] == mesh_vertex(textured, k)
        &&& forall|k: int|
            0 <= k < 3 * sides ==> (#[trigger] self.indices@[k]) as int == mesh_index(
                sides as int,
                k,
            )
    }
}

/// Every index of the triangulation refers to one of the `sides + 1`
/// vertices.
proof fn lemma_mesh_index_range(sides: int, k: int)
    requires
        3 <= sides,
        0 <= k < 3 * sides,
    ensures
        0 <= mesh_index(sides, k) <= sides,
{
}

/// Build the polygon mesh with the given side count, colored or textured.
///
/// The result is pinned down element by element: vertex `0` is the center,
/// vertex `i + 1` is perimeter vertex `i`, and the indices spell out the
/// fan triangulation `(0, 1, 2), (0, 2, 3), ..., (0, sides, 1)`.
pub fn generate(sides: u32, textured: bool) -> (p: Polygon)
    requires
        3 <= sides,
        sides <= 0xFFFF,
    ensures
        p.generated_from(sides, textured),
        p.wf(),
{
    let mut vertices: Vec<Vertex> = Vec::new();
    let mut indices: Vec<u16> = Vec::new();

    let center_attr = if textured {
        VertexAttr::TextureCoords
    } else {
        VertexAttr::Color { palette: 0 }
    };
    vertices.push(Vertex { pos: VertexPos::Center, attr: center_attr });

    let mut i: u32 = 0;
    while i < sides
        invariant
            i <= sides,
            sides <= 0xFFFF,
            vertices@.len() == i + 1,
            forall|k: int| 0 <= k < i + 1 ==> vertices@[k] == mesh_vertex(textured, k),
        decreases sides - i,
    {
        let attr = if textured {
            VertexAttr::TextureCoords
        } else {
            VertexAttr::Color { palette: (i + 1) % 2 + 1 }
        };
        vertices.push(Vertex { pos: VertexPos::Rim { step: i }, attr });
        i += 1;
    }

    let mut i: u32 = 1;
    while i < sides
        invariant
            1 <= i <= sides,
            3 <= sides <= 0xFFFF,
            indices@.len() == 3 * (i - 1),
            forall|k: int| 0 <= k < 3 * (i - 1) ==> indices@[k] as int == mesh_index(
                sides as int,
                k,
            ),
        decreases sides - i,
    {
        indices.push(0);
        indices.push(i as u16);
        indices.push((i + 1) as u16);
        i += 1;
    }
    indices.push(0);
    indices.push(sides as u16);
    indices.push(1);

    proof {
        assert forall|k: int| 0 <= k < 3 * sides implies (indices@[k] as int) < sides + 1 by {
            lemma_mesh_index_range(sides as int, k);
        }
        assert forall|k: int| 0 <= k < sides + 1 implies match (#[trigger] vertices@[k]).pos {
            VertexPos::Center => k == 0,
            VertexPos::Rim { step } => step < sides,
        } by {
            assert(vertices@[k] == mesh_vertex(textured, k));
        }
    }

    Polygon { sides, vertices, indices }
}

/// Law (purity): the mesh is a function of its arguments alone. Two
/// polygons generated from the same side count and variant are equal,
/// component by component.
pub proof fn lemma_generate_deterministic(p1: Polygon, p2: Polygon, sides: u32, textured: bool)
    requires
        p1.generated_from(sides, textured),
        p2.generated_from(sides, textured),
    ensures
        p1.sides == p2.sides,
        p1.vertices@ == p2.vertices@,
        p1.indices@ == p2.indices@,
{
    assert forall|k: int| 0 <= k < p1.vertices@.len() implies p1.vertices@[k]
        == p2.vertices@[k] by {
        assert(p1.vertices@[k] == mesh_vertex(textured, k));
        assert(p2.vertices@[k] == mesh_vertex(textured, k));
    }
    assert(p1.vertices@ =~= p2.vertices@);
    assert forall|k: int| 0 <= k < 3 * sides implies p1.indices@[k] == p2.indices@[k] by {
        assert(p1.indices@[k] as int == mesh_index(sides as int, k));
        assert(p2.indices@[k] as int == mesh_index(sides as int, k));
    }
    assert(p1.indices@ =~= p2.indices@);
}

/// Law (fan property): every triangle of the triangulation is anchored at
/// the center vertex, and the outer edges of the triangles cover every
/// perimeter edge exactly once. Triangle `t` occupies index positions
/// `3t, 3t + 1, 3t + 2`: its first entry is the center, its second entry
/// enumerates perimeter vertex `t + 1` (so distinct triangles have
/// distinct outer edges), and its last two entries form the perimeter edge
/// `(v, rim_successor(v))` for `v == t + 1`; conversely every perimeter
/// edge appears this way in some triangle.
pub proof fn lemma_fan_triangulation(sides: int)
    requires
        3 <= sides,
    ensures
        forall|k: int|
            0 <= k < 3 * sides && k % 3 == 0 ==> #[trigger] mesh_index(sides, k) == 0,
        forall|k: int|
            0 <= k < 3 * sides && k % 3 == 1 ==> #[trigger] mesh_index(sides, k) == k / 3 + 1,
        forall|k: int|
            0 <= k < 3 * sides && k % 3 == 1 ==> mesh_index(sides, k + 1) == rim_successor(
                sides,
                #[trigger] mesh_index(sides, k),
            ),
        forall|k1: int, k2: int|
            0 <= k1 < 3 * sides && 0 <= k2 < 3 * sides && k1 % 3 == 1 && k2 % 3 == 1 && k1 != k2
                ==> #[trigger] mesh_index(sides, k1) != #[trigger] mesh_index(sides, k2),
        forall|v: int|
            1 <= v <= sides ==> 0 <= #[trigger] edge_slot(v) < 3 * sides && edge_slot(v) % 3 == 1
                && mesh_index(sides, edge_slot(v)) == v && mesh_index(sides, edge_slot(v) + 1)
                == rim_successor(sides, v),
{
    assert forall|k: int| 0 <= k < 3 * sides && k % 3 == 1 implies #[trigger] mesh_index(sides, k)
        == k / 3 + 1 by {
        if k / 3 >= sides - 1 {
            assert(k / 3 == sides - 1);
        }
    }
    assert forall|k: int| 0 <= k < 3 * sides && k % 3 == 1 implies mesh_index(sides, k + 1)
        == rim_successor(sides, mesh_index(sides, k)) by {
        assert((k + 1) % 3 == 2 && (k + 1) / 3 == k / 3);
        if k / 3 >= sides - 1 {
            assert(k / 3 == sides - 1);
        }
    }
    assert forall|v: int| 1 <= v <= sides implies 0 <= #[trigger] edge_slot(v) < 3 * sides
        && edge_slot(v) % 3 == 1 && mesh_index(sides, edge_slot(v)) == v && mesh_index(
        sides,
        edge_slot(v) + 1,
    ) == rim_successor(sides, v) by {
        let k = edge_slot(v);
        assert(k == 3 * (v - 1) + 1);
        assert(k % 3 == 1 && k / 3 == v - 1);
        assert((k + 1) % 3 == 2 && (k + 1) / 3 == v - 1);
    }
}

} // verus!
