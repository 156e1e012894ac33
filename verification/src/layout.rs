//! Vertex layout descriptor.
//!
//! Describes, for each rendering variant, how the fields of the per-vertex
//! GPU record map to pipeline input attributes: the stride of one record
//! and an ordered list of `(byte offset, shader location, format)` entries.
//! The descriptor must match the memory layout of the record exactly — a
//! mismatch is silent corruption, not a caught error — so the well-
//! formedness predicate [`VertexLayout::packed`] states that the
//! attributes tile the record contiguously from offset zero and that the
//! stride equals their total size.

use vstd::prelude::*;

use crate::mesh::VertexKind;

verus! {

/// The numeric format of one vertex attribute: three or two 32-bit
/// floating-point scalars.
#[derive(Clone, Copy, Debug, PartialEq, Eq, Structural)]
pub enum AttributeFormat {
    Float32x3,
    Float32x2,
}

/// The size in bytes of one attribute of the given format.
pub open spec fn format_size(f: AttributeFormat) -> int {
    match f {
        AttributeFormat::Float32x3 => 12,
        AttributeFormat::Float32x2 => 8,
    }
}

/// One pipeline input attribute: where it starts inside the vertex
/// record, which shader input slot it feeds, and its format.
#[derive(Clone, Copy, Debug, PartialEq, Eq, Structural)]
pub struct VertexAttribute {
    pub offset: u32,
    pub shader_location: u32,
    pub format: AttributeFormat,
}

/// The full per-vertex layout: record stride and the ordered attributes.
#[derive(Debug, PartialEq, Eq)]
pub struct VertexLayout {
    pub array_stride: u32,
    pub attributes: Vec<VertexAttribute>,
}

impl VertexLayout {
    /// The attributes tile the vertex record exactly: the first starts at
    /// offset zero, each further one starts where its predecessor ends,
    /// the stride is the total size, and shader locations count up from
    /// zero in attribute order.
    pub open spec fn packed(self) -> bool {
        &&& self.attributes@.len() > 0
        &&& self.attributes@[0].offset == 0
        &&& forall|j: int|
            0 < j < self.attributes@.len() ==> (#[trigger] self.attributes@[j]).offset
                == self.attributes@[j - 1].offset + format_size(self.attributes@[j - 1].format)
        &&& self.array_stride == self.attributes@.last().offset + format_size(
            self.attributes@.last().format,
        )
        &&& forall|j: int|
            0 <= j < self.attributes@.len() ==> (#[trigger] self.attributes@[j]).shader_location
                == j
    }
}

/// Build the vertex layout descriptor for the given variant: the position
/// (three floats at offset zero, location 0) followed immediately by the
/// color (three floats) or the texture coordinates (two floats) at
/// location 1. The stride is 24 bytes colored, 20 bytes textured.
pub fn vertex_layout(kind: VertexKind) -> (l: VertexLayout)
    ensures
        l.attributes@.len() == 2,
        l.attributes@[0] == (VertexAttribute {
            offset: 0,
            shader_location: 0,
            format: AttributeFormat::Float32x3,
        }),
        l.attributes@[1] == (VertexAttribute {
            offset: 12,
            shader_location: 1,
            format: if kind == VertexKind::Textured {
                AttributeFormat::Float32x2
            } else {
                AttributeFormat::Float32x3
            },
        }),
        l.array_stride == if kind == VertexKind::Textured { 20int } else { 24int },
        l.packed(),
{
    let second = if let VertexKind::Textured = kind {
        VertexAttribute { offset: 12, shader_location: 1, format: AttributeFormat::Float32x2 }
    } else {
        VertexAttribute { offset: 12, shader_location: 1, format: AttributeFormat::Float32x3 }
    };
    let stride: u32 = if let VertexKind::Textured = kind { 20 } else { 24 };
    let mut attributes: Vec<VertexAttribute> = Vec::new();
    attributes.push(
        VertexAttribute { offset: 0, shader_location: 0, format: AttributeFormat::Float32x3 },
    );
    attributes.push(second);
    VertexLayout { array_stride: stride, attributes }
}

} // verus!
