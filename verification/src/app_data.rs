//! The GPU context, split by lifetime: device-lifetime resources survive
//! swapchain recreation; swapchain-lifetime resources are torn down and
//! rebuilt together as one unit whenever the surface changes. Recreation
//! also regenerates every per-image resource of every render object,
//! because destroying the descriptor pool invalidates all descriptor
//! sets at once.

use crate::allocator::HandleAllocator;
use crate::scene::{RenderObject, Scene, Sun};
use vstd::prelude::*;

verus! {

/// Uniform descriptors reserved beyond the per-object ones.
pub const GLOBAL_DESCRIPTOR_UNIFORMS: u64 = 60;

/// Sampler descriptors reserved beyond the per-object ones.
pub const GLOBAL_SAMPLERS: u64 = 3;

/// Resources that live as long as the logical device: descriptor set
/// layouts and command pools survive every swapchain recreation.
#[derive(Clone, Copy, Debug, PartialEq, Eq, Structural)]
pub struct DeviceResources {
    pub pbr_descriptor_set_layout: u64,
    pub skybox_descriptor_set_layout: u64,
    pub gui_descriptor_layout: u64,
    pub command_pool: u64,
    pub transient_command_pool: u64,
}

/// Synchronization primitives, one per frame in flight; they are created
/// once and survive recreation.
#[derive(Clone, Debug)]
pub struct SyncResources {
    pub image_available_semaphores: Vec<u64>,
    pub render_finished_semaphores: Vec<u64>,
    pub in_flight_fences: Vec<u64>,
}

/// Resources torn down and rebuilt together on every swapchain
/// recreation.
#[derive(Clone, Debug)]
pub struct SwapchainResources {
    pub swapchain: u64,
    pub swapchain_images: Vec<u64>,
    pub swapchain_image_views: Vec<u64>,
    pub render_pass: u64,
    pub pbr_pipeline_layout: u64,
    pub pbr_pipeline: u64,
    pub skybox_pipeline_layout: u64,
    pub skybox_pipeline: u64,
    pub gui_pipeline_layout: u64,
    pub gui_pipeline: u64,
    pub framebuffers: Vec<u64>,
    pub command_buffers: Vec<u64>,
    pub global_buffer: Vec<u64>,
    pub global_buffer_memory: Vec<u64>,
    pub descriptor_pool: u64,
    pub depth_image: u64,
    pub depth_image_memory: u64,
    pub depth_image_view: u64,
    pub color_image: u64,
    pub color_image_memory: u64,
    pub color_image_view: u64,
}

/// The whole GPU context.
pub struct AppData {
    pub device_res: DeviceResources,
    pub swap: SwapchainResources,
    pub sync: SyncResources,
}

/// Every per-image resource of the swapchain unit counts one entry per
/// swapchain image.
pub open spec fn swap_sized(s: SwapchainResources, n: nat) -> bool {
    &&& s.swapchain_images@.len() == n
    &&& s.swapchain_image_views@.len() == n
    &&& s.framebuffers@.len() == n
    &&& s.command_buffers@.len() == n
    &&& s.global_buffer@.len() == n
    &&& s.global_buffer_memory@.len() == n
}

/// Every render object, the light, and (when present) the sky hold one
/// uniform buffer, one backing allocation and one descriptor set per
/// swapchain image.
pub open spec fn scene_buffers_sized(s: Scene, n: nat) -> bool {
    &&& forall|i: int|
        s.render_objects@.dom().contains(i) ==> {
            &&& (#[trigger] s.render_objects@[i]).uniform_buffers@.len() == n
            &&& s.render_objects@[i].uniform_buffers_memory@.len() == n
            &&& s.render_objects@[i].descriptor_sets@.len() == n
        }
    &&& s.sun.buffer@.len() == n
    &&& s.sun.memory@.len() == n
    &&& match s.skybox {
        Some(sky) => sky.descriptors@.len() == n,
        None => true,
    }
}

/// A vector of `n` freshly issued handles.
pub fn fresh_handles(alloc: &mut HandleAllocator, n: usize) -> (r: Vec<u64>)
    ensures
        r@.len() == n,
{
    let mut r: Vec<u64> = Vec::new();
    let mut i: usize = 0;
    while i < n
        invariant
            i <= n,
            r@.len() == i,
        decreases n - i,
    {
        r.push(alloc.allocate());
        i = i + 1;
    }
    r
}

/// Replaces a uniform buffer array and its backing memory array with one
/// freshly created buffer and allocation per swapchain image.
pub fn create_uniform_buffers(
    alloc: &mut HandleAllocator,
    image_count: usize,
    uniform_buffers: &mut Vec<u64>,
    uniform_buffers_memory: &mut Vec<u64>,
)
    ensures
        final(uniform_buffers)@.len() == image_count,
        final(uniform_buffers_memory)@.len() == image_count,
{
    uniform_buffers.clear();
    uniform_buffers_memory.clear();
    let mut i: usize = 0;
    while i < image_count
        invariant
            i <= image_count,
            uniform_buffers@.len() == i,
            uniform_buffers_memory@.len() == i,
        decreases image_count - i,
    {
        uniform_buffers.push(alloc.allocate());
        uniform_buffers_memory.push(alloc.allocate());
        i = i + 1;
    }
}

/// Rebuilds the camera/screen uniform buffers and the light's uniform
/// buffers, one per swapchain image.
pub fn create_global_buffers(
    alloc: &mut HandleAllocator,
    swap: &mut SwapchainResources,
    sun: &mut Sun,
    image_count: usize,
)
    ensures
        final(swap).global_buffer@.len() == image_count,
        final(swap).global_buffer_memory@.len() == image_count,
        final(sun).buffer@.len() == image_count,
        final(sun).memory@.len() == image_count,
        final(swap).swapchain_images == old(swap).swapchain_images,
        final(swap).swapchain_image_views == old(swap).swapchain_image_views,
        final(swap).framebuffers == old(swap).framebuffers,
        final(swap).command_buffers == old(swap).command_buffers,
        final(sun).direction == old(sun).direction,
        final(sun).color == old(sun).color,
{
    let mut b = fresh_handles(alloc, image_count);
    let mut m = fresh_handles(alloc, image_count);
    swap.global_buffer = b;
    swap.global_buffer_memory = m;
    let sb = fresh_handles(alloc, image_count);
    let sm = fresh_handles(alloc, image_count);
    sun.buffer = sb;
    sun.memory = sm;
}

/// The descriptor pool capacities for a swapchain of `image_count`
/// images and up to `max_objects` render objects: per-image uniform
/// descriptors for every object plus the global reserve, per-image
/// samplers for every object plus the global samplers, and one set per
/// object per image.
pub fn descriptor_pool_sizes(image_count: u64, max_objects: u64) -> (r: (u64, u64, u64))
    requires
        image_count <= u32::MAX,
        max_objects + GLOBAL_DESCRIPTOR_UNIFORMS <= u32::MAX,
    ensures
        r.0 == image_count * (max_objects + GLOBAL_DESCRIPTOR_UNIFORMS),
        r.1 == image_count * max_objects + GLOBAL_SAMPLERS,
        r.2 == image_count * max_objects,
{
    proof {
        assert(image_count * (max_objects + GLOBAL_DESCRIPTOR_UNIFORMS) <= u64::MAX) by (
        nonlinear_arith)
            requires
                image_count <= u32::MAX,
                max_objects + GLOBAL_DESCRIPTOR_UNIFORMS <= u32::MAX,
        ;
        assert(image_count * max_objects <= u64::MAX - GLOBAL_SAMPLERS) by (nonlinear_arith)
            requires
                image_count <= u32::MAX,
                max_objects + GLOBAL_DESCRIPTOR_UNIFORMS <= u32::MAX,
        ;
    }
    let uniforms = image_count * (max_objects + GLOBAL_DESCRIPTOR_UNIFORMS);
    let samplers = image_count * max_objects + GLOBAL_SAMPLERS;
    let max_sets = image_count * max_objects;
    (uniforms, samplers, max_sets)
}

/// Allocates one descriptor set per swapchain image for a render object,
/// leaving its geometry, material, buffers and instances untouched.
pub fn create_pbr_descriptor_sets(
    alloc: &mut HandleAllocator,
    image_count: usize,
    object: &mut RenderObject,
)
    ensures
        final(object).descriptor_sets@.len() == image_count,
        final(object).vertex_data == old(object).vertex_data,
        final(object).pbr == old(object).pbr,
        final(object).uniform_buffers == old(object).uniform_buffers,
        final(object).uniform_buffers_memory == old(object).uniform_buffers_memory,
        final(object).instances == old(object).instances,
{
    object.descriptor_sets = fresh_handles(alloc, image_count);
}

/// Rebuilds every swapchain-lifetime resource for a surface with
/// `image_count` images: the chain itself, its views, render pass,
/// pipelines, attachments, framebuffers, per-image command buffers,
/// descriptor pool, the global and light uniform buffers, and one
/// uniform buffer and descriptor set per image for every render object
/// and the sky. Device-lifetime resources and the synchronization
/// primitives survive unchanged, as does the scene graph itself: no
/// object, no instance list and no geometry is touched.
#[verifier::loop_isolation(false)]
pub fn recreate_swapchain(
    data: &mut AppData,
    scene: &mut Scene,
    alloc: &mut HandleAllocator,
    image_count: usize,
)
    requires
        old(scene).wf(),
    ensures
        final(scene).wf(),
        swap_sized(final(data).swap, image_count as nat),
        scene_buffers_sized(*final(scene), image_count as nat),
        final(data).device_res == old(data).device_res,
        final(data).sync == old(data).sync,
        final(scene).objects == old(scene).objects,
        final(scene).camera == old(scene).camera,
        final(scene).selected_object == old(scene).selected_object,
        final(scene).render_objects@.dom() =~= old(scene).render_objects@.dom(),
        forall|i: int|
            old(scene).render_objects@.dom().contains(i) ==> {
                &&& (#[trigger] final(scene).render_objects@[i]).instances == old(
                    scene,
                ).render_objects@[i].instances
                &&& final(scene).render_objects@[i].vertex_data == old(
                    scene,
                ).render_objects@[i].vertex_data
                &&& final(scene).render_objects@[i].pbr == old(scene).render_objects@[i].pbr
            },
        final(scene).skybox is Some <==> old(scene).skybox is Some,
    {
    let swapchain = alloc.allocate();
    let swapchain_images = fresh_handles(alloc, image_count);
    let swapchain_image_views = fresh_handles(alloc, image_count);
    let render_pass = alloc.allocate();
    let pbr_pipeline_layout = alloc.allocate();
    let pbr_pipeline = alloc.allocate();
    let skybox_pipeline_layout = alloc.allocate();
    let skybox_pipeline = alloc.allocate();
    let gui_pipeline_layout = alloc.allocate();
    let gui_pipeline = alloc.allocate();
    let framebuffers = fresh_handles(alloc, image_count);
    let command_buffers = fresh_handles(alloc, image_count);
    let descriptor_pool = alloc.allocate();
    let depth_image = alloc.allocate();
    let depth_image_memory = alloc.allocate();
    let depth_image_view = alloc.allocate();
    let color_image = alloc.allocate();
    let color_image_memory = alloc.allocate();
    let color_image_view = alloc.allocate();
    data.swap = SwapchainResources {
        swapchain,
        swapchain_images,
        swapchain_image_views,
        render_pass,
        pbr_pipeline_layout,
        pbr_pipeline,
        skybox_pipeline_layout,
        skybox_pipeline,
        gui_pipeline_layout,
        gui_pipeline,
        framebuffers,
        command_buffers,
        global_buffer: Vec::new(),
        global_buffer_memory: Vec::new(),
        descriptor_pool,
        depth_image,
        depth_image_memory,
        depth_image_view,
        color_image,
        color_image_memory,
        color_image_view,
    };
    create_global_buffers(alloc, &mut data.swap, &mut scene.sun, image_count);
    match &mut scene.skybox {
        Some(sky) => {
            sky.descriptors = fresh_handles(alloc, image_count);
        },
        None => {},
    }
    let keys = scene.render_objects.keys();
    let ghost renders0 = old(scene).render_objects@;
    let ghost objects1 = scene.objects;
    let ghost camera1 = scene.camera;
    let ghost skybox1 = scene.skybox;
    let ghost sun1 = scene.sun;
    let ghost selected1 = scene.selected_object;
    let m = keys.len();
    let mut t: usize = 0;
    while t < m
        invariant
            t <= m,
            m == keys@.len(),
            scene.objects == objects1,
            scene.camera == camera1,
            scene.skybox == skybox1,
            scene.sun == sun1,
            scene.selected_object == selected1,
            scene.render_objects.wf(),
            scene.render_objects@.dom() =~= renders0.dom(),
            forall|i: int|
                renders0.dom().contains(i) ==> {
                    &&& (#[trigger] scene.render_objects@[i]).instances == renders0[i].instances
                    &&& scene.render_objects@[i].vertex_data == renders0[i].vertex_data
                    &&& scene.render_objects@[i].pbr == renders0[i].pbr
                },
            forall|j: int|
                0 <= j < t ==> {
                    &&& (#[trigger] scene.render_objects@[keys@[j] as int]).uniform_buffers@.len()
                        == image_count
                    &&& scene.render_objects@[keys@[j] as int].uniform_buffers_memory@.len()
                        == image_count
                    &&& scene.render_objects@[keys@[j] as int].descriptor_sets@.len() == image_count
                },
        decreases m - t,
    {
        let key = keys[t];
        let ro = scene.render_objects.get_mut(key);
        let mut bufs: Vec<u64> = Vec::new();
        let mut mems: Vec<u64> = Vec::new();
        create_uniform_buffers(alloc, image_count, &mut bufs, &mut mems);
        ro.uniform_buffers = bufs;
        ro.uniform_buffers_memory = mems;
        create_pbr_descriptor_sets(alloc, image_count, ro);
        proof {
            assert forall|j: int| 0 <= j < t + 1 implies {
                &&& (#[trigger] scene.render_objects@[keys@[j] as int]).uniform_buffers@.len()
                    == image_count
                &&& scene.render_objects@[keys@[j] as int].uniform_buffers_memory@.len()
                    == image_count
                &&& scene.render_objects@[keys@[j] as int].descriptor_sets@.len() == image_count
            } by {
                if j < t && keys@[j] != key {
                    assert(keys@[j] as int != key as int);
                }
            }
        }
        t = t + 1;
    }
    proof {
        scene.render_objects.lemma_wf_bounds();
        assert forall|i: int| renders0.dom().contains(i) implies {
            &&& (#[trigger] scene.render_objects@[i]).uniform_buffers@.len() == image_count
            &&& scene.render_objects@[i].uniform_buffers_memory@.len() == image_count
            &&& scene.render_objects@[i].descriptor_sets@.len() == image_count
        } by {
            assert(0 <= i <= usize::MAX);
            let k = i as usize;
            assert(scene.render_objects@.dom().contains(k as int));
            assert(keys@.contains(k));
            let j = choose|j: int| 0 <= j < keys@.len() && keys@[j] == k;
        }
        lemma_same_structure_keeps_wf(*old(scene), *scene);
    }
}

/// A scene whose objects and instance lists are untouched keeps the
/// scene invariant, whatever happened to per-image GPU resources.
proof fn lemma_same_structure_keeps_wf(pre: Scene, post: Scene)
    requires
        pre.wf(),
        post.objects == pre.objects,
        post.render_objects.wf(),
        post.render_objects@.dom() =~= pre.render_objects@.dom(),
        forall|i: int|
            pre.render_objects@.dom().contains(i) ==> (#[trigger] post.render_objects@[i]).instances
                == pre.render_objects@[i].instances,
    ensures
        post.wf(),
{
    assert forall|i: int|
        post.objects@.dom().contains(i) implies post.object_refs_valid(
        #[trigger] post.objects@[i],
    ) by {
        assert(pre.object_refs_valid(pre.objects@[i]));
    }
    assert forall|i: int, oid2: crate::scene::ObjectId|
        post.render_objects@.dom().contains(i) implies #[trigger] crate::scene::count_matches(
        post.render_objects@[i].instances@,
        oid2,
    ) == post.ref_count(crate::scene::RenderId(i as usize), oid2) by {
        let rid = crate::scene::RenderId(i as usize);
        assert(crate::scene::count_matches(pre.render_objects@[i].instances@, oid2)
            == pre.ref_count(rid, oid2));
    }
}

} // verus!
