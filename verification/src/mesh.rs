//! GPU mesh data: vertex byte layout and the mesh builder.
//!
//! A mesh owns the byte image of its vertex buffer, its index list, and an
//! index count; the caller uploads those images verbatim, so every byte the
//! GPU will read is pinned down here. One vertex layout is defined: a
//! two-component 32-bit position followed by a three-component 32-bit
//! color, at a fixed 20-byte stride.

use vstd::arithmetic::div_mod::lemma_fundamental_div_mod_converse;
use vstd::prelude::*;

verus! {

/// Byte stride of one vector vertex: 8 position bytes, 12 color bytes.
pub const VECTOR_VERTEX_STRIDE: usize = 20;

/// Numeric format of one vertex attribute, named after the GPU wire format.
#[derive(Clone, Copy, PartialEq, Eq, Structural, Debug)]
pub enum VertexFormat {
    /// Two 32-bit components.
    Float32x2,
    /// Three 32-bit components.
    Float32x3,
}

/// One attribute of a vertex: where it sits and how the shader sees it.
#[derive(Clone, Copy, PartialEq, Eq, Structural, Debug)]
pub struct VertexAttributeDesc {
    /// Byte offset within one vertex.
    pub offset: u64,
    /// Shader binding slot.
    pub shader_location: u32,
    /// Numeric format.
    pub format: VertexFormat,
}

/// A vertex buffer layout: stride plus the fixed attribute list.
pub struct VertexLayoutDesc {
    /// Byte stride from one vertex to the next.
    pub array_stride: u64,
    /// The attributes, in shader-location order.
    pub attributes: Vec<VertexAttributeDesc>,
}

/// The one vertex layout this crate feeds to its pipelines: position at
/// offset 0 in slot 0, color right after it at offset 8 in slot 1.
pub fn vector_vertex_layout() -> (l: VertexLayoutDesc)
    ensures
        l.array_stride == VECTOR_VERTEX_STRIDE,
        l.attributes@.len() == 2,
        l.attributes@[0] == (VertexAttributeDesc {
            offset: 0,
            shader_location: 0,
            format: VertexFormat::Float32x2,
        }),
        l.attributes@[1] == (VertexAttributeDesc {
            offset: 8,
            shader_location: 1,
            format: VertexFormat::Float32x3,
        }),
{
    let mut attributes: Vec<VertexAttributeDesc> = Vec::new();
    attributes.push(VertexAttributeDesc { offset: 0, shader_location: 0, format: VertexFormat::Float32x2 });
    attributes.push(VertexAttributeDesc { offset: 8, shader_location: 1, format: VertexFormat::Float32x3 });
    VertexLayoutDesc { array_stride: 20, attributes }
}

/// Byte `k` of one full-intensity color channel in the 32-bit wire format,
/// little endian.
pub open spec fn unit_channel_byte(k: int) -> u8 {
    if k == 2 {
        128
    } else if k == 3 {
        63
    } else {
        0
    }
}

/// Byte `j` of the interleaved vertex stream over `positions`: each vertex
/// keeps its 8 position bytes and gains 12 bytes of opaque white color.
pub open spec fn stream_byte(positions: Seq<u8>, j: int) -> u8 {
    let v = j / 20;
    let b = j % 20;
    if b < 8 {
        positions[8 * v + b]
    } else {
        unit_channel_byte((b - 8) % 4)
    }
}

/// Interleave tessellated positions with the constant white color into the
/// fixed 20-byte-stride vertex stream.
pub fn build_vertex_stream(positions: &Vec<u8>, vertex_count: u32) -> (out: Vec<u8>)
    requires
        positions@.len() == 8 * vertex_count,
    ensures
        out@.len() == 20 * vertex_count,
        forall|j: int| 0 <= j < out@.len() ==> #[trigger] out@[j] == stream_byte(positions@, j),
{
    let mut out: Vec<u8> = Vec::new();
    let count = vertex_count as usize;
    let plen = positions.len();
    let mut p: usize = 0;
    let mut v: usize = 0;
    while v < count
        invariant
            positions@.len() == 8 * count,
            plen == positions@.len(),
            v <= count,
            p == 8 * v,
            out@.len() == 20 * v,
            forall|j: int| 0 <= j < out@.len() ==> #[trigger] out@[j] == stream_byte(positions@, j),
        decreases count - v,
    {
        let mut b: usize = 0;
        while b < 8
            invariant
                positions@.len() == 8 * count,
                plen == positions@.len(),
                v < count,
                b <= 8,
                p == 8 * v + b,
                out@.len() == 20 * v + b,
                forall|j: int| 0 <= j < out@.len() ==> #[trigger] out@[j] == stream_byte(
                    positions@,
                    j,
                ),
            decreases 8 - b,
        {
            proof {
                assert(8 * (v as int) + (b as int) < positions@.len());
            }
            let byte = positions[p];
            p = p + 1;
            out.push(byte);
            proof {
                lemma_fundamental_div_mod_converse(
                    20 * v + b as int,
                    20,
                    v as int,
                    b as int,
                );
            }
            b = b + 1;
        }
        let mut c: usize = 0;
        while c < 12
            invariant
                positions@.len() == 8 * count,
                v < count,
                c <= 12,
                out@.len() == 20 * v + 8 + c,
                forall|j: int| 0 <= j < out@.len() ==> #[trigger] out@[j] == stream_byte(
                    positions@,
                    j,
                ),
            decreases 12 - c,
        {
            let k = c % 4;
            let byte: u8 = if k == 2 {
                128
            } else if k == 3 {
                63
            } else {
                0
            };
            out.push(byte);
            proof {
                lemma_fundamental_div_mod_converse(
                    20 * v + 8 + c as int,
                    20,
                    v as int,
                     8 + c as int,
                );
                lemma_fundamental_div_mod_converse(c as int, 4, c as int / 4, c as int % 4);
            }
            c = c + 1;
        }
        v = v + 1;
    }
    out
}

/// Why a mesh could not be built.
#[derive(Clone, Copy, PartialEq, Eq, Structural, Debug)]
pub enum MeshError {
    /// The vertex array was empty; an empty mesh is degenerate.
    EmptyVertexArray,
    /// An index pointed past the end of the vertex array.
    IndexOutOfRange,
    /// More indices than one indexed draw can cover.
    TooManyIndices,
}

impl MeshError {
    /// A short label for reporting the fault.
    pub fn describe(&self) -> String {
        match self {
            MeshError::EmptyVertexArray => "mesh needs at least one vertex".to_owned(),
            MeshError::IndexOutOfRange => "index points past the vertex array".to_owned(),
            MeshError::TooManyIndices => "too many indices for one indexed draw".to_owned(),
        }
    }
}

/// An immutable indexed mesh: the byte image of its vertex buffer, its
/// index list, and the count one indexed draw covers. Buffers are owned,
/// never shared between meshes.
pub struct VectorMesh {
    /// Debug label carried onto the GPU buffers.
    pub name: String,
    /// How many vertices the vertex data holds.
    pub vertex_count: u32,
    /// Vertex bytes at the fixed 20-byte stride.
    pub vertex_data: Vec<u8>,
    /// Triangle indices, each below `vertex_count`.
    pub indices: Vec<u32>,
    /// Number of indices one draw covers; equals the index list's length.
    pub index_count: u32,
}

impl VectorMesh {
    /// The mesh invariant: a non-empty vertex array sized exactly to its
    /// count, an index count matching the list, every index in bounds.
    pub open spec fn wf(&self) -> bool {
        &&& self.vertex_count > 0
        &&& self.vertex_data@.len() == 20 * self.vertex_count
        &&& self.index_count == self.indices@.len()
        &&& forall|i: int|
            0 <= i < self.indices@.len() ==> (#[trigger] self.indices@[i]) < self.vertex_count
    }
}

/// Build a mesh from a finished vertex stream and an index list.
///
/// Fails, rather than yielding a degenerate mesh, when the vertex array is
/// empty, when an index is out of range, or when the index list exceeds
/// what one indexed draw can cover; otherwise the mesh holds exactly the
/// given bytes and indices.
pub fn build_mesh(name: String, vertex_data: Vec<u8>, vertex_count: u32, indices: Vec<u32>) -> (r:
    Result<VectorMesh, MeshError>)
    requires
        vertex_data@.len() == 20 * vertex_count,
    ensures
        vertex_count == 0 ==> r == Result::<VectorMesh, MeshError>::Err(
            MeshError::EmptyVertexArray,
        ),
        vertex_count > 0 && indices@.len() > u32::MAX ==> r == Result::<
            VectorMesh,
            MeshError,
        >::Err(MeshError::TooManyIndices),
        vertex_count > 0 && indices@.len() <= u32::MAX && (exists|i: int|
            0 <= i < indices@.len() && (#[trigger] indices@[i]) >= vertex_count) ==> r == Result::<
            VectorMesh,
            MeshError,
        >::Err(MeshError::IndexOutOfRange),
        vertex_count > 0 && indices@.len() <= u32::MAX && (forall|i: int|
            0 <= i < indices@.len() ==> (#[trigger] indices@[i]) < vertex_count) ==> {
            &&& r is Ok
            &&& r->Ok_0.wf()
            &&& r->Ok_0.name == name
            &&& r->Ok_0.vertex_count == vertex_count
            &&& r->Ok_0.vertex_data == vertex_data
            &&& r->Ok_0.indices == indices
            &&& r->Ok_0.index_count == indices@.len()
        },
{
    if vertex_count == 0 {
        return Err(MeshError::EmptyVertexArray);
    }
    if indices.len() > u32::MAX as usize {
        return Err(MeshError::TooManyIndices);
    }
    let index_count = indices.len() as u32;
    let mut i: usize = 0;
    while i < indices.len()
        invariant
            i <= indices@.len(),
            vertex_count > 0,
            indices@.len() <= u32::MAX,
            index_count == indices@.len(),
            vertex_data@.len() == 20 * vertex_count,
            forall|k: int| 0 <= k < i ==> (#[trigger] indices@[k]) < vertex_count,
        decreases indices@.len() - i,
    {
        if indices[i] >= vertex_count {
            return Err(MeshError::IndexOutOfRange);
        }
        i = i + 1;
    }
    Ok(VectorMesh { name, vertex_count, vertex_data, indices, index_count })
}

} // verus!
