//! Asset intake: accessor slicing of binary mesh buffers, image decoding,
//! cubemap assembly, and loading a decoded mesh primitive with its
//! texture into the scene. File reading stays outside the library; this
//! module works on byte buffers.

use crate::allocator::HandleAllocator;
use crate::app_data::create_uniform_buffers;
use crate::geometry::{VertexData, VertexPbr};
use crate::scene::{GameObject, ObjectId, RenderId, RenderObject, Scene, PBR};
use crate::texture::{log2_floor, max_nat, mip_level_count, TextureData};
use crate::transform::{Transform, Vec4f};
use vstd::prelude::*;

verus! {

/// A list of asset paths queued for loading at startup.
pub struct AssetList(pub Vec<String>);

impl AssetList {
    pub fn new(list: Vec<String>) -> (r: AssetList)
        ensures
            r.0 == list,
    {
        AssetList(list)
    }

    pub fn inner_ref(&self) -> (r: &Vec<String>)
        ensures
            r == &self.0,
    {
        &self.0
    }
}

/// A display name attached to a loaded object.
pub struct Name(pub String);

/// Mesh material data awaiting GPU upload: the optional base color image
/// and the base color factor.
pub struct UnstagedPbrData {
    pub base_image: Option<Vec<u8>>,
    pub base: Vec4f,
}

/// Errors of the asset intake path.
#[derive(Clone, Copy, Debug, PartialEq, Eq, Structural)]
pub enum AssetError {
    AccessorOutOfBounds,
    FaceDecodeFailed,
    FaceDimensionMismatch,
    WrongFaceCount,
}

/// The scalar width of one accessor component, in bytes.
#[derive(Clone, Copy, Debug, PartialEq, Eq, Structural)]
pub enum ComponentType {
    I8,
    U8,
    I16,
    U16,
    U32,
    F32,
}

/// How many components one accessor element carries.
#[derive(Clone, Copy, Debug, PartialEq, Eq, Structural)]
pub enum AccessorDims {
    Scalar,
    Vec2,
    Vec3,
    Vec4,
    Mat2,
    Mat3,
    Mat4,
}

/// Where an accessor's elements live inside a binary buffer.
#[derive(Clone, Copy, Debug, PartialEq, Eq, Structural)]
pub struct AccessorMeta {
    pub accessor_offset: usize,
    pub view_offset: usize,
    pub count: usize,
    pub component: ComponentType,
    pub dims: AccessorDims,
}

/// Bytes per component.
pub open spec fn component_size_spec(c: ComponentType) -> nat {
    match c {
        ComponentType::I8 => 1,
        ComponentType::U8 => 1,
        ComponentType::I16 => 2,
        ComponentType::U16 => 2,
        ComponentType::U32 => 4,
        ComponentType::F32 => 4,
    }
}

/// Components per element.
pub open spec fn dim_count_spec(d: AccessorDims) -> nat {
    match d {
        AccessorDims::Scalar => 1,
        AccessorDims::Vec2 => 2,
        AccessorDims::Vec3 => 3,
        AccessorDims::Vec4 => 4,
        AccessorDims::Mat2 => 4,
        AccessorDims::Mat3 => 9,
        AccessorDims::Mat4 => 16,
    }
}

pub fn component_size(c: ComponentType) -> (r: usize)
    ensures
        r == component_size_spec(c),
{
    match c {
        ComponentType::I8 => 1,
        ComponentType::U8 => 1,
        ComponentType::I16 => 2,
        ComponentType::U16 => 2,
        ComponentType::U32 => 4,
        ComponentType::F32 => 4,
    }
}

pub fn dim_count(d: AccessorDims) -> (r: usize)
    ensures
        r == dim_count_spec(d),
{
    match d {
        AccessorDims::Scalar => 1,
        AccessorDims::Vec2 => 2,
        AccessorDims::Vec3 => 3,
        AccessorDims::Vec4 => 4,
        AccessorDims::Mat2 => 4,
        AccessorDims::Mat3 => 9,
        AccessorDims::Mat4 => 16,
    }
}

/// The byte range an accessor covers: it starts at the accessor's offset
/// plus its view's offset and spans count * component size * dimensions
/// bytes.
pub open spec fn accessor_start(m: AccessorMeta) -> int {
    m.accessor_offset + m.view_offset
}

pub open spec fn accessor_byte_len(m: AccessorMeta) -> int {
    m.count * component_size_spec(m.component) * dim_count_spec(m.dims)
}

/// Copies the bytes an accessor covers out of its buffer; an accessor
/// reaching past the end of the buffer is rejected.
pub fn get_buffer_slice(meta: &AccessorMeta, buffer: &Vec<u8>) -> (r: Result<Vec<u8>, AssetError>)
    ensures
        match r {
            Ok(out) => accessor_start(*meta) + accessor_byte_len(*meta) <= buffer@.len() && out@
                =~= buffer@.subrange(
                accessor_start(*meta),
                accessor_start(*meta) + accessor_byte_len(*meta),
            ),
            Err(e) => e == AssetError::AccessorOutOfBounds && accessor_start(*meta)
                + accessor_byte_len(*meta) > buffer@.len(),
        },
{
    proof {
        vstd::std_specs::vec::axiom_spec_len(buffer);
    }
    let len = buffer.len();
    let cs = component_size(meta.component);
    let dc = dim_count(meta.dims);
    // bounds work in u128 so that no intermediate product can overflow
    let total: u128 = meta.count as u128 * cs as u128 * dc as u128;
    let start: u128 = meta.accessor_offset as u128 + meta.view_offset as u128;
    if start + total > len as u128 {
        return Err(AssetError::AccessorOutOfBounds);
    }
    let s: usize = meta.accessor_offset + meta.view_offset;
    let n: usize = meta.count * cs * dc;
    let mut out: Vec<u8> = Vec::new();
    let mut i: usize = 0;
    while i < n
        invariant
            i <= n,
            s + n <= buffer@.len(),
            buffer@.len() <= usize::MAX,
            out@.len() == i,
            forall|j: int| 0 <= j < i ==> out@[j] == buffer@[s + j],
        decreases n - i,
    {
        out.push(buffer[s + i]);
        i = i + 1;
    }
    proof {
        assert(out@ =~= buffer@.subrange(s as int, s as int + n as int));
    }
    Ok(out)
}

/// What an image decoder yields: tightly packed pixel bytes and the
/// image's dimensions.
pub struct DecodedImage {
    pub pixels: Vec<u8>,
    pub width: u32,
    pub height: u32,
}

/// What decoding a byte stream as a PNG image yields, as a function of
/// the bytes alone: `None` when the stream is not a valid image, else
/// the pixel bytes and dimensions.
pub uninterp spec fn png_decode_of(bytes: Seq<u8>) -> Option<(Seq<u8>, nat, nat)>;

#[verifier::external_type_specification]
#[verifier::external_body]
pub struct ExPngDecodingError(png::DecodingError);

/// Relies on png::Decoder / png::Reader: decoding an in-memory PNG
/// stream is deterministic in the bytes; `next_frame` fills the buffer
/// sized by `output_buffer_size` and reports the frame's dimensions.
#[verifier::external_body]
fn decode_png_raw(bytes: &Vec<u8>) -> (r: Result<DecodedImage, png::DecodingError>)
    ensures
        match r {
            Ok(img) => png_decode_of(bytes@) == Some(
                (img.pixels@, img.width as nat, img.height as nat),
            ),
            Err(_) => png_decode_of(bytes@) is None,
        },
{
    let decoder = png::Decoder::new(std::io::Cursor::new(bytes.as_slice()));
    let mut reader = decoder.read_info()?;
    let mut buf = vec![0u8; reader.output_buffer_size()];
    let info = reader.next_frame(&mut buf)?;
    let size = info.buffer_size();
    buf.truncate(size);
    Ok(DecodedImage { pixels: buf, width: info.width, height: info.height })
}

/// Decodes one encoded image, mapping a decoder failure to this
/// library's error.
pub fn decode_image(bytes: &Vec<u8>) -> (r: Result<DecodedImage, AssetError>)
    ensures
        match r {
            Ok(img) => png_decode_of(bytes@) == Some(
                (img.pixels@, img.width as nat, img.height as nat),
            ),
            Err(e) => e == AssetError::FaceDecodeFailed && png_decode_of(bytes@) is None,
        },
{
    match decode_png_raw(bytes) {
        Ok(img) => Ok(img),
        Err(_) => Err(AssetError::FaceDecodeFailed),
    }
}

/// The pixel bytes of one decoded face; meaningful only where the face
/// decodes.
pub open spec fn face_pixels(face: Seq<u8>) -> Seq<u8> {
    png_decode_of(face)->Some_0.0
}

/// The pixels of the first `n` faces, in layer order.
pub open spec fn cube_concat(faces: Seq<Vec<u8>>, n: int) -> Seq<u8>
    decreases n,
{
    if n <= 0 {
        Seq::empty()
    } else {
        cube_concat(faces, n - 1) + face_pixels(faces[n - 1]@)
    }
}

/// Six decoded faces of identical dimensions, concatenated in layer
/// order for cubemap upload.
pub struct CubemapPixels {
    pub pixels: Vec<u8>,
    pub width: u32,
    pub height: u32,
}

/// Decodes the six encoded faces of a cubemap and concatenates their
/// pixels. Exactly six faces must be given, each must decode, and all
/// must agree on their dimensions; the first mismatch or failure is
/// reported.
pub fn assemble_cubemap(faces: &Vec<Vec<u8>>) -> (r: Result<CubemapPixels, AssetError>)
    ensures
        match r {
            Ok(c) => {
                &&& faces@.len() == 6
                &&& forall|i: int|
                    0 <= i < 6 ==> (png_decode_of(#[trigger] faces@[i]@) matches Some(d)
                        && d.1 == c.width as nat && d.2 == c.height as nat)
                &&& c.pixels@ =~= cube_concat(faces@, 6)
            },
            Err(AssetError::WrongFaceCount) => faces@.len() != 6,
            Err(AssetError::FaceDecodeFailed) => exists|i: int|
                0 <= i < faces@.len() && png_decode_of(#[trigger] faces@[i]@) is None,
            Err(AssetError::FaceDimensionMismatch) => faces@.len() == 6 && exists|i: int, j: int|
                #![trigger png_decode_of(faces@[i]@), png_decode_of(faces@[j]@)]
                {
                    &&& 0 <= i < j < 6
                    &&& png_decode_of(faces@[i]@) is Some
                    &&& png_decode_of(faces@[j]@) is Some
                    &&& (png_decode_of(faces@[i]@)->Some_0.1 != png_decode_of(faces@[j]@)->Some_0.1
                        || png_decode_of(faces@[i]@)->Some_0.2 != png_decode_of(
                        faces@[j]@,
                    )->Some_0.2)
                },
            Err(_) => false,
        },
{
    if faces.len() != 6 {
        return Err(AssetError::WrongFaceCount);
    }
    let mut pixels: Vec<u8> = Vec::new();
    let mut width: u32 = 0;
    let mut height: u32 = 0;
    let mut i: usize = 0;
    while i < 6
        invariant
            i <= 6,
            faces@.len() == 6,
            pixels@ =~= cube_concat(faces@, i as int),
            forall|j: int|
                0 <= j < i ==> (png_decode_of(#[trigger] faces@[j]@) matches Some(d) && d.1
                    == width as nat && d.2 == height as nat),
        decreases 6 - i,
    {
        let face = match decode_image(&faces[i]) {
            Ok(f) => f,
            Err(_) => {
                return Err(AssetError::FaceDecodeFailed);
            },
        };
        if i == 0 {
            width = face.width;
            height = face.height;
        } else if face.width != width || face.height != height {
            proof {
                assert(png_decode_of(faces@[0]@) is Some);
                assert(png_decode_of(faces@[i as int]@) is Some);
            }
            return Err(AssetError::FaceDimensionMismatch);
        }
        let mut fp = face.pixels;
        pixels.append(&mut fp);
        i = i + 1;
    }
    Ok(CubemapPixels { pixels, width, height })
}

/// Loads one decoded mesh primitive into the scene: a mip-mapped texture
/// sized by the image, device-local geometry buffers, one uniform buffer
/// and descriptor set per swapchain image, and a game object instancing
/// the new render object once. Returns the handles of both.
pub fn load_primitive(
    scene: &mut Scene,
    alloc: &mut HandleAllocator,
    image_count: usize,
    vertices: Vec<VertexPbr>,
    indices: Vec<u32>,
    width: u32,
    height: u32,
    base: Vec4f,
    name: String,
    transform: Transform,
    parent: Option<ObjectId>,
) -> (r: (ObjectId, RenderId))
    requires
        old(scene).wf(),
        old(scene).objects.capacity_spec() < usize::MAX,
        old(scene).render_objects.capacity_spec() < usize::MAX,
        width >= 1,
        height >= 1,
    ensures
        final(scene).wf(),
        final(scene).objects.spec_len() == old(scene).objects.spec_len() + 1,
        final(scene).render_objects.spec_len() == old(scene).render_objects.spec_len() + 1,
        final(scene).has_obj(r.0),
        final(scene).has_render(r.1),
        final(scene).render_at(r.1).pbr.texture_data.mip_levels == log2_floor(
            max_nat(width as nat, height as nat),
        ) + 1,
        final(scene).render_at(r.1).uniform_buffers@.len() == image_count,
        final(scene).render_at(r.1).uniform_buffers_memory@.len() == image_count,
        final(scene).render_at(r.1).descriptor_sets@.len() == image_count,
        final(scene).render_at(r.1).vertex_data.vertices == vertices,
        final(scene).render_at(r.1).vertex_data.indices == indices,
        final(scene).render_at(r.1).pbr.base == base,
        final(scene).render_at(r.1).instances@ =~= seq![r.0],
        final(scene).obj_at(r.0).transform == transform,
        final(scene).obj_at(r.0).parent == parent,
        final(scene).obj_at(r.0).render_objects@ =~= seq![r.1],
        final(scene).obj_at(r.0).name == name,
        final(scene).camera == old(scene).camera,
        final(scene).skybox == old(scene).skybox,
        final(scene).sun == old(scene).sun,
        final(scene).selected_object == old(scene).selected_object,
{
    let mip_levels = mip_level_count(width, height);
    let texture_data = TextureData {
        mip_levels,
        image: alloc.allocate(),
        image_memory: alloc.allocate(),
        image_view: alloc.allocate(),
        sampler: alloc.allocate(),
    };
    let vertex_capacity = vertices.len();
    let index_capacity = indices.len();
    let vertex_data = VertexData {
        vertices,
        indices,
        vertex_buffer: alloc.allocate(),
        vertex_buffer_memory: alloc.allocate(),
        index_buffer: alloc.allocate(),
        index_buffer_memory: alloc.allocate(),
        vertex_capacity,
        index_capacity,
        persistent_mapping: false,
    };
    let mut uniform_buffers: Vec<u64> = Vec::new();
    let mut uniform_buffers_memory: Vec<u64> = Vec::new();
    create_uniform_buffers(alloc, image_count, &mut uniform_buffers, &mut uniform_buffers_memory);
    let mut descriptor_sets: Vec<u64> = Vec::new();
    let mut d: usize = 0;
    while d < image_count
        invariant
            d <= image_count,
            descriptor_sets@.len() == d,
        decreases image_count - d,
    {
        descriptor_sets.push(alloc.allocate());
        d = d + 1;
    }
    let render_object = RenderObject {
        vertex_data,
        pbr: PBR { texture_data, base },
        uniform_buffers,
        uniform_buffers_memory,
        descriptor_sets,
        instances: Vec::new(),
    };
    let rid_raw = self_insert_render(scene, render_object);
    let rid = RenderId(rid_raw);
    let mut render_objects: Vec<RenderId> = Vec::new();
    render_objects.push(rid);
    let object = GameObject { name, transform, parent, children: Vec::new(), render_objects };
    proof {
        assert(scene.has_render(rid));
        assert(scene.object_refs_valid(object));
    }
    let ghost mid = *scene;
    let oid = match scene.insert_instance(object) {
        Some(oid) => oid,
        None => vstd::pervasive::unreached(),
    };
    proof {
        assert(object.render_objects@[0] == rid);
        assert(object.render_objects@.contains(rid));
        assert(mid.render_at(rid).instances@.len() == 0);
        assert(scene.render_at(rid).instances@ == mid.render_at(rid).instances@.push(oid));
    }
    (oid, rid)
}

/// Stores a new render object with an empty instance list; a fresh
/// render object is instanced by nobody, so the scene invariant holds.
fn self_insert_render(scene: &mut Scene, render_object: RenderObject) -> (rid: usize)
    requires
        old(scene).wf(),
        old(scene).render_objects.capacity_spec() < usize::MAX,
        render_object.instances@.len() == 0,
    ensures
        final(scene).wf(),
        !old(scene).render_objects@.dom().contains(rid as int),
        final(scene).render_objects@ =~= old(scene).render_objects@.insert(
            rid as int,
            render_object,
        ),
        final(scene).render_objects.spec_len() == old(scene).render_objects.spec_len() + 1,
        final(scene).objects == old(scene).objects,
        final(scene).camera == old(scene).camera,
        final(scene).skybox == old(scene).skybox,
        final(scene).sun == old(scene).sun,
        final(scene).selected_object == old(scene).selected_object,
        final(scene).objects.capacity_spec() == old(scene).objects.capacity_spec(),
{
    let rid = scene.render_objects.insert(render_object);
    proof {
        old(scene).render_objects.lemma_wf_bounds();
        old(scene).objects.lemma_wf_bounds();
        assert forall|i: int|
            scene.objects@.dom().contains(i) implies scene.object_refs_valid(
            #[trigger] scene.objects@[i],
        ) by {
            assert(old(scene).object_refs_valid(old(scene).objects@[i]));
            assert forall|k: int|
                0 <= k < scene.objects@[i].render_objects@.len() implies scene.has_render(
                #[trigger] scene.objects@[i].render_objects@[k],
            ) by {
                assert(old(scene).has_render(old(scene).objects@[i].render_objects@[k]));
            }
        }
        assert forall|i: int, oid2: ObjectId|
            scene.render_objects@.dom().contains(i) implies #[trigger] crate::scene::count_matches(
            scene.render_objects@[i].instances@,
            oid2,
        ) == scene.ref_count(RenderId(i as usize), oid2) by {
            let rr = RenderId(i as usize);
            if i == rid as int {
                assert(scene.render_objects@[i] == render_object);
                assert(crate::scene::count_matches(render_object.instances@, oid2) == 0);
                assert forall|j: int|
                    scene.objects@.dom().contains(j) implies !(#[trigger] scene.objects@[
                    j
                ]).render_objects@.contains(rr) by {
                    assert(old(scene).object_refs_valid(old(scene).objects@[j]));
                    if scene.objects@[j].render_objects@.contains(rr) {
                        let w = choose|w: int|
                            0 <= w < scene.objects@[j].render_objects@.len() && #[trigger] scene
                                .objects@[j].render_objects@[w] == rr;
                        assert(old(scene).has_render(rr));
                    }
                }
                assert(scene.ref_count(rr, oid2) == 0);
            } else {
                assert(old(scene).render_objects@.dom().contains(i));
                assert(crate::scene::count_matches(
                    old(scene).render_objects@[i].instances@,
                    oid2,
                ) == old(scene).ref_count(rr, oid2));
            }
        }
    }
    rid
}

} // verus!
