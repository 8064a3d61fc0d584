//! The static geometry: the pentagon's triangle-fan index table and the
//! layout of the vertex buffer the textured pipeline variant consumes.
//!
//! The vertex positions and texture coordinates themselves are floating-point
//! data owned by the driver; the logic here reads only the table sizes and
//! the byte layout.

use vstd::prelude::*;

verus! {

/// Bytes of one 32-bit float scalar.
pub const FLOAT_BYTES: u64 = 4;

/// Components of the position attribute of one vertex.
pub const POSITION_COMPONENTS: u64 = 3;

/// Components of the texture-coordinate attribute of one vertex.
pub const TEX_COORD_COMPONENTS: u64 = 2;

/// Number of vertices in the static pentagon table.
pub const VERTEX_COUNT: u32 = 5;

/// The scalar format of one vertex attribute.
#[derive(Clone, Copy, Debug, PartialEq, Eq, Structural)]
pub enum AttributeFormat {
    Float32x2,
    Float32x3,
}

/// One attribute of the vertex buffer: where it starts inside a vertex, the
/// shader location it feeds, and its scalar format.
#[derive(Clone, Copy, Debug, PartialEq, Eq, Structural)]
pub struct VertexAttribute {
    pub offset: u64,
    pub shader_location: u32,
    pub format: AttributeFormat,
}

/// The layout of the external vertex buffer: how wide one vertex is, whether
/// the buffer steps per vertex or per instance, and its attributes.
#[derive(Debug)]
pub struct VertexBufferLayout {
    pub array_stride: u64,
    pub step_per_instance: bool,
    pub attributes: Vec<VertexAttribute>,
}

impl View for VertexBufferLayout {
    type V = Seq<VertexAttribute>;

    open spec fn view(&self) -> Seq<VertexAttribute> {
        self.attributes@
    }
}

/// The attributes of the textured variant's vertex layout: position
/// (3 floats) at offset 0 feeding location 0, texture coordinates (2 floats)
/// immediately after, feeding location 1.
pub open spec fn spec_vertex_attributes() -> Seq<VertexAttribute> {
    seq![
        VertexAttribute { offset: 0, shader_location: 0, format: AttributeFormat::Float32x3 },
        VertexAttribute {
            offset: (POSITION_COMPONENTS * FLOAT_BYTES) as u64,
            shader_location: 1,
            format: AttributeFormat::Float32x2,
        },
    ]
}

impl VertexBufferLayout {
    /// Describe the vertex buffer of the textured variant: per-vertex
    /// stepping, one vertex as wide as its five float components, position
    /// first and texture coordinates immediately following.
    pub fn desc() -> (r: VertexBufferLayout)
        ensures
            r.array_stride == (POSITION_COMPONENTS + TEX_COORD_COMPONENTS) * FLOAT_BYTES,
            !r.step_per_instance,
            r@ == spec_vertex_attributes(),
    {
        let attributes = vec![
            VertexAttribute { offset: 0, shader_location: 0, format: AttributeFormat::Float32x3 },
            VertexAttribute {
                offset: POSITION_COMPONENTS * FLOAT_BYTES,
                shader_location: 1,
                format: AttributeFormat::Float32x2,
            },
        ];
        let r = VertexBufferLayout {
            array_stride: (POSITION_COMPONENTS + TEX_COORD_COMPONENTS) * FLOAT_BYTES,
            step_per_instance: false,
            attributes,
        };
        assert(r@ =~= spec_vertex_attributes());
        r
    }
}

/// The static triangle-fan index table: three triangles fanning out of
/// vertex 4 over the five pentagon vertices.
pub open spec fn spec_indices() -> Seq<u16> {
    seq![0u16, 1u16, 4u16, 1u16, 2u16, 4u16, 2u16, 3u16, 4u16]
}

/// Every index of the static table addresses one of the five vertices.
pub proof fn lemma_indices_in_range()
    ensures
        forall|i: int| 0 <= i < spec_indices().len() ==> spec_indices()[i] < VERTEX_COUNT,
{
    assert forall|i: int| 0 <= i < spec_indices().len() implies spec_indices()[i]
        < VERTEX_COUNT by {
        assert(spec_indices().len() == 9);
    }
}

/// Build the static index table.
pub fn indices() -> (r: Vec<u16>)
    ensures
        r@ == spec_indices(),
{
    let r = vec![0u16, 1u16, 4u16, 1u16, 2u16, 4u16, 2u16, 3u16, 4u16];
    assert(r@ =~= spec_indices());
    r
}

/// The number of indices one full draw of the static geometry covers.
pub fn index_count() -> (r: u32)
    ensures
        r == spec_indices().len(),
{
    9
}

} // verus!
