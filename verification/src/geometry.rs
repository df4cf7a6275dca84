//! Vertex and index data on its way to the GPU. Scalar vertex components
//! are IEEE bit patterns carried as `u32`; this module never does float
//! arithmetic, it only assembles and validates the byte streams the
//! asset importer delivers.

use crate::allocator::HandleAllocator;
use vstd::prelude::*;

verus! {

/// Vertex attributes a mesh stream can carry.
#[derive(Clone, Copy, Debug, PartialEq, Eq, Structural)]
pub enum Attribute {
    VertexPbr,
    Normal,
    TexCoord,
}

/// Three 32-bit scalar bit patterns.
#[derive(Clone, Copy, Debug, PartialEq, Eq, Structural)]
pub struct Vec3Bits {
    pub x: u32,
    pub y: u32,
    pub z: u32,
}

/// Two 32-bit scalar bit patterns.
#[derive(Clone, Copy, Debug, PartialEq, Eq, Structural)]
pub struct Vec2Bits {
    pub x: u32,
    pub y: u32,
}

/// Kinds of vertices the pipelines consume.
pub trait Vertex {

}

/// Marker for per-material instance data a material pipeline can bind.
pub trait MaterialInstance {

}

/// The vertex layout of the opaque-geometry pass.
#[derive(Clone, Copy, Debug, PartialEq, Eq, Structural)]
pub struct VertexPbr {
    pub pos: Vec3Bits,
    pub normal: Vec3Bits,
    pub tex_coord: Vec2Bits,
}

/// A position-only vertex.
#[derive(Clone, Copy, Debug, PartialEq, Eq, Structural)]
pub struct SimpleVertex {
    pub pos: Vec3Bits,
}

/// The vertex layout of the overlay pass.
#[derive(Clone, Copy, Debug, PartialEq, Eq, Structural)]
pub struct VertexGui {
    pub pos: Vec2Bits,
    pub uv: Vec2Bits,
    pub r: u8,
    pub g: u8,
    pub b: u8,
    pub a: u8,
}

impl Vertex for VertexPbr {

}

impl Vertex for SimpleVertex {

}

impl Vertex for VertexGui {

}

impl VertexPbr {
    pub fn new(pos: Vec3Bits, normal: Vec3Bits, tex_coord: Vec2Bits) -> (r: VertexPbr)
        ensures
            r == (VertexPbr { pos, normal, tex_coord }),
    {
        VertexPbr { pos, normal, tex_coord }
    }
}

/// Errors of the geometry path.
#[derive(Clone, Copy, Debug, PartialEq, Eq, Structural)]
pub enum GeometryError {
    MisalignedIndexBytes,
    MisalignedPositionBytes,
    MisalignedTexCoordBytes,
    AttributeCountMismatch,
}

/// A little-endian 16-bit read.
pub open spec fn le16(b0: u8, b1: u8) -> u32 {
    (b0 + 256 * b1) as u32
}

/// A little-endian 32-bit read.
pub open spec fn le32(b0: u8, b1: u8, b2: u8, b3: u8) -> u32 {
    (b0 + 256 * b1 + 65536 * b2 + 16777216 * b3) as u32
}

/// The width of one index entry in a mesh's index stream.
#[derive(Clone, Copy, Debug, PartialEq, Eq, Structural)]
pub enum IndexType {
    U8,
    U16,
    U32,
}

/// Decodes a mesh's index byte stream into 32-bit indices. Eight-bit
/// indices widen byte for byte; 16- and 32-bit indices read little
/// endian, and a stream whose length is not a multiple of the entry
/// width is rejected.
pub fn indices_from_bytes(bytes: &Vec<u8>, ty: IndexType) -> (r: Result<Vec<u32>, GeometryError>)
    ensures
        match r {
            Ok(out) => match ty {
                IndexType::U8 => out@.len() == bytes@.len() && forall|i: int|
                    0 <= i < out@.len() ==> out@[i] == bytes@[i],
                IndexType::U16 => bytes@.len() % 2 == 0 && out@.len() == bytes@.len() / 2
                    && forall|i: int|
                    0 <= i < out@.len() ==> out@[i] == le16(bytes@[2 * i], bytes@[2 * i + 1]),
                IndexType::U32 => bytes@.len() % 4 == 0 && out@.len() == bytes@.len() / 4
                    && forall|i: int|
                    0 <= i < out@.len() ==> out@[i] == le32(
                        bytes@[4 * i],
                        bytes@[4 * i + 1],
                        bytes@[4 * i + 2],
                        bytes@[4 * i + 3],
                    ),
            },
            Err(e) => e == GeometryError::MisalignedIndexBytes && match ty {
                IndexType::U8 => false,
                IndexType::U16 => bytes@.len() % 2 != 0,
                IndexType::U32 => bytes@.len() % 4 != 0,
            },
        },
{
    let len = bytes.len();
    match ty {
        IndexType::U8 => {
            let mut out: Vec<u32> = Vec::new();
            let mut i: usize = 0;
            while i < len
                invariant
                    i <= len,
                    len == bytes@.len(),
                    out@.len() == i,
                    forall|j: int| 0 <= j < i ==> out@[j] == bytes@[j],
                decreases len - i,
            {
                out.push(bytes[i] as u32);
                i = i + 1;
            }
            Ok(out)
        },
        IndexType::U16 => {
            if len % 2 != 0 {
                return Err(GeometryError::MisalignedIndexBytes);
            }
            let n = len / 2;
            let mut out: Vec<u32> = Vec::new();
            let mut i: usize = 0;
            while i < n
                invariant
                    i <= n,
                    len == bytes@.len(),
                    n == len / 2,
                    len % 2 == 0,
                    2 * n <= len,
                    len <= usize::MAX,
                    out@.len() == i,
                    forall|j: int|
                        0 <= j < i ==> out@[j] == le16(bytes@[2 * j], bytes@[2 * j + 1]),
                decreases n - i,
            {
                let lo = bytes[2 * i] as u32;
                let hi = bytes[2 * i + 1] as u32;
                out.push(lo + 256 * hi);
                i = i + 1;
            }
            Ok(out)
        },
        IndexType::U32 => {
            if len % 4 != 0 {
                return Err(GeometryError::MisalignedIndexBytes);
            }
            let n = len / 4;
            let mut out: Vec<u32> = Vec::new();
            let mut i: usize = 0;
            while i < n
                invariant
                    i <= n,
                    len == bytes@.len(),
                    n == len / 4,
                    len % 4 == 0,
                    4 * n <= len,
                    len <= usize::MAX,
                    out@.len() == i,
                    forall|j: int|
                        0 <= j < i ==> out@[j] == le32(
                            bytes@[4 * j],
                            bytes@[4 * j + 1],
                            bytes@[4 * j + 2],
                            bytes@[4 * j + 3],
                        ),
                decreases n - i,
            {
                let b0 = bytes[4 * i] as u32;
                let b1 = bytes[4 * i + 1] as u32;
                let b2 = bytes[4 * i + 2] as u32;
                let b3 = bytes[4 * i + 3] as u32;
                out.push(b0 + 256 * b1 + 65536 * b2 + 16777216 * b3);
                i = i + 1;
            }
            Ok(out)
        },
    }
}

/// The 32-bit scalar at element position `i` of a tightly packed byte
/// stream.
pub open spec fn scalar_at(bytes: Seq<u8>, i: int) -> u32 {
    le32(bytes[4 * i], bytes[4 * i + 1], bytes[4 * i + 2], bytes[4 * i + 3])
}

/// Interleaves the position, normal and texture-coordinate streams of a
/// mesh primitive into one vertex array. Positions and normals are three
/// scalars per vertex, texture coordinates two; a missing coordinate
/// stream fills in zeroes. Streams that disagree on the vertex count are
/// rejected.
pub fn intersperse_vertex_data(
    positions: &Vec<u8>,
    normals: &Vec<u8>,
    tex_coords: Option<&Vec<u8>>,
) -> (r: Result<Vec<VertexPbr>, GeometryError>)
    ensures
        match r {
            Ok(out) => {
                &&& positions@.len() % 12 == 0
                &&& normals@.len() == positions@.len()
                &&& out@.len() == positions@.len() / 12
                &&& forall|i: int|
                    0 <= i < out@.len() ==> #[trigger] out@[i] == (VertexPbr {
                        pos: Vec3Bits {
                            x: scalar_at(positions@, 3 * i),
                            y: scalar_at(positions@, 3 * i + 1),
                            z: scalar_at(positions@, 3 * i + 2),
                        },
                        normal: Vec3Bits {
                            x: scalar_at(normals@, 3 * i),
                            y: scalar_at(normals@, 3 * i + 1),
                            z: scalar_at(normals@, 3 * i + 2),
                        },
                        tex_coord: match tex_coords {
                            Some(tc) => Vec2Bits {
                                x: scalar_at(tc@, 2 * i),
                                y: scalar_at(tc@, 2 * i + 1),
                            },
                            None => Vec2Bits { x: 0, y: 0 },
                        },
                    })
                &&& match tex_coords {
                    Some(tc) => tc@.len() == positions@.len() / 12 * 8,
                    None => true,
                }
            },
            Err(GeometryError::MisalignedPositionBytes) => positions@.len() % 12 != 0,
            Err(GeometryError::AttributeCountMismatch) => normals@.len() != positions@.len() || (
            match tex_coords {
                Some(tc) => tc@.len() % 8 == 0 && tc@.len() != positions@.len() / 12 * 8,
                None => false,
            }),
            Err(GeometryError::MisalignedTexCoordBytes) => match tex_coords {
                Some(tc) => tc@.len() % 8 != 0,
                None => false,
            },
            Err(_) => false,
        },
{
    let plen = positions.len();
    if plen % 12 != 0 {
        return Err(GeometryError::MisalignedPositionBytes);
    }
    if normals.len() != plen {
        return Err(GeometryError::AttributeCountMismatch);
    }
    let count = plen / 12;
    match tex_coords {
        Some(tc) => {
            if tc.len() % 8 != 0 {
                return Err(GeometryError::MisalignedTexCoordBytes);
            }
            if tc.len() / 8 != count {
                return Err(GeometryError::AttributeCountMismatch);
            }
        },
        None => {},
    }
    let mut out: Vec<VertexPbr> = Vec::new();
    let mut i: usize = 0;
    while i < count
        invariant
            i <= count,
            plen == positions@.len(),
            count == plen / 12,
            plen % 12 == 0,
            12 * count == plen,
            plen <= usize::MAX,
            normals@.len() == plen,
            match tex_coords {
                Some(tc) => tc@.len() == count * 8,
                None => true,
            },
            out@.len() == i,
            forall|j: int|
                0 <= j < i ==> #[trigger] out@[j] == (VertexPbr {
                    pos: Vec3Bits {
                        x: scalar_at(positions@, 3 * j),
                        y: scalar_at(positions@, 3 * j + 1),
                        z: scalar_at(positions@, 3 * j + 2),
                    },
                    normal: Vec3Bits {
                        x: scalar_at(normals@, 3 * j),
                        y: scalar_at(normals@, 3 * j + 1),
                        z: scalar_at(normals@, 3 * j + 2),
                    },
                    tex_coord: match tex_coords {
                        Some(tc) => Vec2Bits {
                            x: scalar_at(tc@, 2 * j),
                            y: scalar_at(tc@, 2 * j + 1),
                        },
                        None => Vec2Bits { x: 0, y: 0 },
                    },
                }),
        decreases count - i,
    {
        let pos = Vec3Bits {
            x: read_scalar(positions, 3 * i),
            y: read_scalar(positions, 3 * i + 1),
            z: read_scalar(positions, 3 * i + 2),
        };
        let normal = Vec3Bits {
            x: read_scalar(normals, 3 * i),
            y: read_scalar(normals, 3 * i + 1),
            z: read_scalar(normals, 3 * i + 2),
        };
        let tex_coord = match tex_coords {
            Some(tc) => Vec2Bits { x: read_scalar(tc, 2 * i), y: read_scalar(tc, 2 * i + 1) },
            None => Vec2Bits { x: 0, y: 0 },
        };
        out.push(VertexPbr { pos, normal, tex_coord });
        i = i + 1;
    }
    Ok(out)
}

/// Reads the 32-bit scalar at element position `i`.
fn read_scalar(bytes: &Vec<u8>, i: usize) -> (r: u32)
    requires
        4 * i + 4 <= bytes@.len(),
    ensures
        r == scalar_at(bytes@, i as int),
{
    proof {
        vstd::std_specs::vec::axiom_spec_len(bytes);
    }
    let b0 = bytes[4 * i] as u32;
    let b1 = bytes[4 * i + 1] as u32;
    let b2 = bytes[4 * i + 2] as u32;
    let b3 = bytes[4 * i + 3] as u32;
    b0 + 256 * b1 + 65536 * b2 + 16777216 * b3
}

/// Geometry uploaded to GPU-local buffers, with the capacity the buffers
/// were created for and whether the staging buffer stays mapped for
/// per-frame updates.
#[derive(Clone, Debug)]
pub struct VertexData<V> {
    pub vertices: Vec<V>,
    pub indices: Vec<u32>,
    pub vertex_buffer: u64,
    pub vertex_buffer_memory: u64,
    pub index_buffer: u64,
    pub index_buffer_memory: u64,
    pub vertex_capacity: usize,
    pub index_capacity: usize,
    pub persistent_mapping: bool,
}

/// How an in-place geometry update is carried out: within capacity the
/// device buffers are reused and only re-copied through staging; beyond
/// capacity they are destroyed and reallocated.
#[derive(Clone, Copy, Debug, PartialEq, Eq, Structural)]
pub enum UpdateAction {
    Reuse,
    Reallocate,
}

impl<V> VertexData<V> {
    /// Decides whether new vertex and index counts still fit the buffers.
    pub fn update_action(&self, new_vertex_count: usize, new_index_count: usize) -> (r:
        UpdateAction)
        ensures
            r is Reallocate <==> new_vertex_count > self.vertex_capacity || new_index_count
                > self.index_capacity,
    {
        if new_vertex_count > self.vertex_capacity || new_index_count > self.index_capacity {
            UpdateAction::Reallocate
        } else {
            UpdateAction::Reuse
        }
    }
}

/// Replaces a mesh's geometry in place. Within the buffers' capacity the
/// device buffers and any persistent staging mapping are kept and only
/// the contents change; beyond it the buffers are destroyed and
/// reallocated at the new sizes (dropping a persistent mapping with
/// them), which is what keeps a small per-frame fluctuation in overlay
/// geometry from reallocating every frame.
pub fn update_vertex_data<V>(
    vd: &mut VertexData<V>,
    alloc: &mut HandleAllocator,
    vertices: Vec<V>,
    indices: Vec<u32>,
) -> (r: UpdateAction)
    ensures
        (r is Reallocate <==> vertices@.len() > old(vd).vertex_capacity || indices@.len() > old(
            vd,
        ).index_capacity),
        final(vd).vertices == vertices,
        final(vd).indices == indices,
        r is Reuse ==> {
            &&& final(vd).vertex_buffer == old(vd).vertex_buffer
            &&& final(vd).vertex_buffer_memory == old(vd).vertex_buffer_memory
            &&& final(vd).index_buffer == old(vd).index_buffer
            &&& final(vd).index_buffer_memory == old(vd).index_buffer_memory
            &&& final(vd).vertex_capacity == old(vd).vertex_capacity
            &&& final(vd).index_capacity == old(vd).index_capacity
            &&& final(vd).persistent_mapping == old(vd).persistent_mapping
        },
        r is Reallocate ==> {
            &&& final(vd).vertex_capacity == vertices@.len()
            &&& final(vd).index_capacity == indices@.len()
            &&& final(vd).persistent_mapping == old(vd).persistent_mapping
        },
{
    let new_vertex_count = vertices.len();
    let new_index_count = indices.len();
    let action = vd.update_action(new_vertex_count, new_index_count);
    match action {
        UpdateAction::Reuse => {
            vd.vertices = vertices;
            vd.indices = indices;
        },
        UpdateAction::Reallocate => {
            vd.vertices = vertices;
            vd.indices = indices;
            vd.vertex_buffer = alloc.allocate();
            vd.vertex_buffer_memory = alloc.allocate();
            vd.index_buffer = alloc.allocate();
            vd.index_buffer_memory = alloc.allocate();
            vd.vertex_capacity = new_vertex_count;
            vd.index_capacity = new_index_count;
        },
    }
    action
}

/// The index list of a unit quad drawn as two triangles.
pub fn quad_indices() -> (r: Vec<u32>)
    ensures
        r@ =~= seq![0u32, 2u32, 1u32, 1u32, 2u32, 3u32],
{
    let mut r: Vec<u32> = Vec::new();
    r.push(0);
    r.push(2);
    r.push(1);
    r.push(1);
    r.push(2);
    r.push(3);
    r
}

/// The four corner vertices of a quad of the given extent; the scalar
/// arguments are the bit patterns of 0, the width and the height.
pub fn quad_vertices(zero_bits: u32, width_bits: u32, height_bits: u32) -> (r: Vec<SimpleVertex>)
    ensures
        r@.len() == 4,
        r@[0].pos == (Vec3Bits { x: zero_bits, y: zero_bits, z: zero_bits }),
        r@[1].pos == (Vec3Bits { x: zero_bits, y: height_bits, z: zero_bits }),
        r@[2].pos == (Vec3Bits { x: width_bits, y: zero_bits, z: zero_bits }),
        r@[3].pos == (Vec3Bits { x: width_bits, y: height_bits, z: zero_bits }),
{
    let mut r: Vec<SimpleVertex> = Vec::new();
    r.push(SimpleVertex { pos: Vec3Bits { x: zero_bits, y: zero_bits, z: zero_bits } });
    r.push(SimpleVertex { pos: Vec3Bits { x: zero_bits, y: height_bits, z: zero_bits } });
    r.push(SimpleVertex { pos: Vec3Bits { x: width_bits, y: zero_bits, z: zero_bits } });
    r.push(SimpleVertex { pos: Vec3Bits { x: width_bits, y: height_bits, z: zero_bits } });
    r
}

} // verus!
