//! How coloured vertices, textured vertices and instance transforms are laid
//! out in GPU buffers, as the pipelines read them.

use vstd::prelude::*;

use crate::object::{TEXTURE_VERTEX_SIZE, TRANSFORM_HALFWORDS};

verus! {

/// The formats of the vertex attributes: `wgpu::VertexFormat`'s variants of
/// the same names, two and three `f32`.
pub enum AttributeFormat {
    Float32x2,
    Float32x3,
}

/// One attribute of a buffer's elements: its format, its byte offset in an
/// element, and the shader location it is read at.
pub struct AttributeLayout {
    pub format: AttributeFormat,
    pub offset: u64,
    pub shader_location: u32,
}

/// How a vertex buffer is read: the bytes between elements, whether there is
/// one element per instance (otherwise one per vertex), and the attributes
/// of each element.
pub struct BufferLayout {
    pub array_stride: u64,
    pub per_instance: bool,
    pub attributes: Vec<AttributeLayout>,
}

/// The size in bytes of an attribute of the format.
pub open spec fn attribute_size(format: AttributeFormat) -> int {
    match format {
        AttributeFormat::Float32x2 => 8,
        AttributeFormat::Float32x3 => 12,
    }
}

/// Every attribute lies within an element, and no two attributes overlap or
/// share a shader location.
pub open spec fn attributes_fit(layout: BufferLayout) -> bool {
    let attributes = layout.attributes@;
    &&& forall|i: int|
        0 <= i < attributes.len() ==> #[trigger] attributes[i].offset + attribute_size(attributes[i].format)
            <= layout.array_stride
    &&& forall|i: int, j: int|
        0 <= i < j < attributes.len() ==> attributes[i].offset + attribute_size(attributes[i].format)
            <= attributes[j].offset && attributes[i].shader_location != attributes[j].shader_location
}

/// A two-`f32` attribute at `offset`, read at `location`.
pub open spec fn pair_at(offset: u64, location: u32) -> AttributeLayout {
    AttributeLayout { format: AttributeFormat::Float32x2, offset, shader_location: location }
}

/// The layout of coloured vertices: a position (two `f32`) at location 0
/// and an RGB colour (three `f32`) at location 1, 20 bytes per vertex.
pub fn coloured_vertex_layout() -> (layout: BufferLayout)
    ensures
        layout.array_stride == 20,
        !layout.per_instance,
        layout.attributes@ == seq![
            pair_at(0, 0),
            AttributeLayout { format: AttributeFormat::Float32x3, offset: 8, shader_location: 1 },
        ],
        attributes_fit(layout),
{
    let attributes = vec![
        AttributeLayout { format: AttributeFormat::Float32x2, offset: 0, shader_location: 0 },
        AttributeLayout { format: AttributeFormat::Float32x3, offset: 8, shader_location: 1 },
    ];
    BufferLayout { array_stride: 20, per_instance: false, attributes }
}

/// The layout of textured vertices: a position at location 0 and texture
/// coordinates at location 1, two `f32` each, `TEXTURE_VERTEX_SIZE` bytes
/// per vertex.
pub fn texture_vertex_layout() -> (layout: BufferLayout)
    ensures
        layout.array_stride == TEXTURE_VERTEX_SIZE,
        !layout.per_instance,
        layout.attributes@ == seq![pair_at(0, 0), pair_at(8, 1)],
        attributes_fit(layout),
{
    let attributes = vec![
        AttributeLayout { format: AttributeFormat::Float32x2, offset: 0, shader_location: 0 },
        AttributeLayout { format: AttributeFormat::Float32x2, offset: 8, shader_location: 1 },
    ];
    BufferLayout { array_stride: TEXTURE_VERTEX_SIZE as u64, per_instance: false, attributes }
}

/// The layout of instance transforms: the matrix's two columns and the
/// translation, two `f32` each, at locations 2, 3 and 4, one transform
/// (`TRANSFORM_HALFWORDS` halfwords) per instance.
pub fn transform_layout() -> (layout: BufferLayout)
    ensures
        layout.array_stride == 2 * TRANSFORM_HALFWORDS,
        layout.per_instance,
        layout.attributes@ == seq![pair_at(0, 2), pair_at(8, 3), pair_at(16, 4)],
        attributes_fit(layout),
{
    let attributes = vec![
        AttributeLayout { format: AttributeFormat::Float32x2, offset: 0, shader_location: 2 },
        AttributeLayout { format: AttributeFormat::Float32x2, offset: 8, shader_location: 3 },
        AttributeLayout { format: AttributeFormat::Float32x2, offset: 16, shader_location: 4 },
    ];
    BufferLayout { array_stride: 2 * TRANSFORM_HALFWORDS as u64, per_instance: true, attributes }
}

} // verus!
