use box_render::layout::vertex_layout;
use box_render::layout::AttributeFormat;
use box_render::layout::VertexAttribute;
use box_render::mesh::VertexKind;

#[test]
fn textured_layout_matches_record() {
    let l = vertex_layout(VertexKind::Textured);
    // position: three floats at offset 0; texture coordinates: two
    // floats right behind; 20 bytes in all.
    assert_eq!(l.array_stride, 20);
    assert_eq!(l.attributes.len(), 2);
    assert_eq!(
        l.attributes[0],
        VertexAttribute {
            offset: 0,
            shader_location: 0,
            format: AttributeFormat::Float32x3
        }
    );
    assert_eq!(
        l.attributes[1],
        VertexAttribute {
            offset: 12,
            shader_location: 1,
            format: AttributeFormat::Float32x2
        }
    );
}

#[test]
fn colored_layout_matches_record() {
    let l = vertex_layout(VertexKind::Colored);
    // position: three floats at offset 0; color: three floats right
    // behind; 24 bytes in all.
    assert_eq!(l.array_stride, 24);
    assert_eq!(l.attributes.len(), 2);
    assert_eq!(
        l.attributes[0],
        VertexAttribute {
            offset: 0,
            shader_location: 0,
            format: AttributeFormat::Float32x3
        }
    );
    assert_eq!(
        l.attributes[1],
        VertexAttribute {
            offset: 12,
            shader_location: 1,
            format: AttributeFormat::Float32x3
        }
    );
}

#[test]
fn attributes_are_contiguous() {
    for kind in [VertexKind::Colored, VertexKind::Textured] {
        let l = vertex_layout(kind);
        let mut offset = 0u32;
        for (j, a) in l.attributes.iter().enumerate() {
            assert_eq!(a.offset, offset);
            assert_eq!(a.shader_location, j as u32);
            offset += match a.format {
                AttributeFormat::Float32x3 => 12,
                AttributeFormat::Float32x2 => 8,
            };
        }
        assert_eq!(l.array_stride, offset);
    }
}
