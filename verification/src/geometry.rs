//! The drawn pentagon's index data and the layout of its vertex buffer.
use vstd::prelude::*;

verus! {

/// The number of vertices of the pentagon (its corners A to E).
pub const VERTEX_COUNT: u16 = 5;

/// The pentagon as three triangles over its five corners, A=0 to E=4.
pub open spec fn pentagon_indices() -> Seq<u16> {
    seq![0u16, 1u16, 4u16, 1u16, 2u16, 4u16, 2u16, 3u16, 4u16]
}

/// The index list of the pentagon, three indices per triangle.
pub fn indices() -> (indices: Vec<u16>)
    ensures
        indices@ == pentagon_indices(),
{
    let v: Vec<u16> = vec![0, 1, 4, 1, 2, 4, 2, 3, 4];
    assert(v@ =~= pentagon_indices());
    v
}

/// Whether the two bytes at `2 * i` and `2 * i + 1` hold `value` with its low
/// byte first.
pub open spec fn holds_le(bytes: Seq<u8>, i: int, value: u16) -> bool {
    bytes[2 * i] + 256 * bytes[2 * i + 1] == value
}

/// Whether the two bytes at `2 * i` and `2 * i + 1` hold `value` with its
/// high byte first.
pub open spec fn holds_be(bytes: Seq<u8>, i: int, value: u16) -> bool {
    256 * bytes[2 * i] + bytes[2 * i + 1] == value
}

/// Whether `bytes` is `values` laid out two bytes each, in the byte order
/// of the machine that runs the code.
pub open spec fn u16_bytes(values: Seq<u16>, bytes: Seq<u8>) -> bool {
    &&& bytes.len() == 2 * values.len()
    &&& match vstd::endian::endianness() {
        vstd::endian::Endian::Little => forall|i: int|
            0 <= i < values.len() ==> #[trigger] holds_le(bytes, i, values[i]),
        vstd::endian::Endian::Big => forall|i: int|
            0 <= i < values.len() ==> #[trigger] holds_be(bytes, i, values[i]),
    }
}

/// Calls `bytemuck::cast_slice` from `u16` to `u8` and copies the result.
/// The cast reinterprets the slice's memory, so each value becomes its two
/// bytes in the byte order of the machine (`vstd::endian::endianness`).
#[verifier::external_body]
fn cast_u16_slice_to_bytes(values: &[u16]) -> (bytes: Vec<u8>)
    ensures
        u16_bytes(values@, bytes@),
{
    bytemuck::cast_slice::<u16, u8>(values).to_vec()
}

/// The contents of the index buffer: the pentagon's indices as bytes, in the
/// machine's byte order.
pub fn index_buffer_contents() -> (bytes: Vec<u8>)
    ensures
        u16_bytes(pentagon_indices(), bytes@),
        bytes@.len() == 18,
{
    let indices = indices();
    cast_u16_slice_to_bytes(indices.as_slice())
}

/// Every index names one of the pentagon's vertices, the list splits into
/// whole triangles, and no triangle repeats a corner.
pub proof fn lemma_indices_form_triangles()
    ensures
        pentagon_indices().len() % 3 == 0,
        forall|i: int|
            0 <= i < pentagon_indices().len() ==> #[trigger] pentagon_indices()[i] < VERTEX_COUNT,
        forall|t: int|
            0 <= t < pentagon_indices().len() / 3 ==> {
                &&& #[trigger] pentagon_indices()[3 * t] != pentagon_indices()[3 * t + 1]
                &&& pentagon_indices()[3 * t + 1] != pentagon_indices()[3 * t + 2]
                &&& pentagon_indices()[3 * t] != pentagon_indices()[3 * t + 2]
            },
{
    let s = pentagon_indices();
    assert forall|t: int| 0 <= t < s.len() / 3 implies {
        &&& #[trigger] s[3 * t] != s[3 * t + 1]
        &&& s[3 * t + 1] != s[3 * t + 2]
        &&& s[3 * t] != s[3 * t + 2]
    } by {
        assert(t == 0 || t == 1 || t == 2);
    }
}

/// How often the GPU advances through a vertex buffer.
#[derive(Clone, Copy, Debug, PartialEq, Eq, Structural)]
pub enum VertexStepMode {
    Vertex,
    Instance,
}

/// The vertex attribute formats that the pentagon uses.
#[derive(Clone, Copy, Debug, PartialEq, Eq, Structural)]
pub enum VertexFormat {
    /// Three 32-bit floats.
    Float32x3,
    /// Two 32-bit floats.
    Float32x2,
}

impl VertexFormat {
    /// The number of bytes that one value of this format takes.
    pub open spec fn spec_size(self) -> u64 {
        match self {
            VertexFormat::Float32x3 => 12,
            VertexFormat::Float32x2 => 8,
        }
    }

    /// The number of bytes that one value of this format takes.
    pub fn size(&self) -> (size: u64)
        ensures
            size == self.spec_size(),
    {
        match self {
            VertexFormat::Float32x3 => 12,
            VertexFormat::Float32x2 => 8,
        }
    }
}

/// One attribute of a vertex: where it starts in the vertex, which shader
/// input receives it, and its format.
#[derive(Clone, Copy, Debug, PartialEq, Eq, Structural)]
pub struct VertexAttribute {
    pub offset: u64,
    pub shader_location: u32,
    pub format: VertexFormat,
}

/// How a vertex buffer is laid out: the bytes per vertex, the step mode and
/// the attributes of one vertex.
#[derive(Debug)]
pub struct VertexBufferLayout {
    pub array_stride: u64,
    pub step_mode: VertexStepMode,
    pub attributes: Vec<VertexAttribute>,
}

/// The attributes of a pentagon vertex: its position and then its texture
/// coordinates.
pub open spec fn vertex_attributes() -> Seq<VertexAttribute> {
    seq![
        VertexAttribute { offset: 0, shader_location: 0, format: VertexFormat::Float32x3 },
        VertexAttribute { offset: 12, shader_location: 1, format: VertexFormat::Float32x2 },
    ]
}

/// The layout of the pentagon's vertex buffer: per vertex, a position of
/// three floats at shader location 0 and texture coordinates of two floats
/// at shader location 1, 20 bytes in all.
pub fn vertex_desc() -> (layout: VertexBufferLayout)
    ensures
        layout.array_stride == 20,
        layout.step_mode == VertexStepMode::Vertex,
        layout.attributes@ == vertex_attributes(),
{
    let position = VertexFormat::Float32x3;
    let tex_coords = VertexFormat::Float32x2;
    let attributes: Vec<VertexAttribute> = vec![
        VertexAttribute { offset: 0, shader_location: 0, format: position },
        VertexAttribute { offset: position.size(), shader_location: 1, format: tex_coords },
    ];
    assert(attributes@ =~= vertex_attributes());
    VertexBufferLayout {
        array_stride: position.size() + tex_coords.size(),
        step_mode: VertexStepMode::Vertex,
        attributes,
    }
}

/// The attributes of a vertex sit one after another from its first byte,
/// fill it exactly, and feed distinct shader locations.
pub proof fn lemma_vertex_attributes_tile_the_stride()
    ensures
        vertex_attributes()[0].offset == 0,
        forall|i: int|
            0 <= i < vertex_attributes().len() - 1 ==> (#[trigger] vertex_attributes()[i]).offset
                + vertex_attributes()[i].format.spec_size() == vertex_attributes()[i + 1].offset,
        vertex_attributes().last().offset + vertex_attributes().last().format.spec_size() == 20,
        forall|i: int, j: int|
            0 <= i < j < vertex_attributes().len() ==> #[trigger] vertex_attributes()[i].shader_location
                != #[trigger] vertex_attributes()[j].shader_location,
{
}

} // verus!
