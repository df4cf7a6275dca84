//! Window-close teardown as data: one hard barrier, then every owned
//! resource destroyed in reverse dependency order — the swapchain-lifetime
//! unit first, then textures, synchronization primitives, geometry, pools,
//! and last the device, surface and instance. The caller replays the plan
//! against the driver; nothing here may be reordered, because each entry
//! is only safe once its dependents above it are gone.

use crate::app_data::AppData;
use crate::commands::GuiMesh;
use crate::scene::{RenderObject, Scene};
use crate::texture::TextureData;
use vstd::prelude::*;

verus! {

/// One step of the teardown.
#[derive(Clone, Copy, Debug, PartialEq, Eq, Structural)]
pub enum DestroyCmd {
    /// The hard barrier: no in-flight work may survive into the teardown.
    WaitDeviceIdle,
    DestroyImageView { view: u64 },
    DestroyImage { image: u64 },
    FreeMemory { memory: u64 },
    DestroyDescriptorPool { pool: u64 },
    DestroyBuffer { buffer: u64 },
    DestroyFramebuffer { framebuffer: u64 },
    FreeCommandBuffers,
    DestroyPipeline { pipeline: u64 },
    DestroyPipelineLayout { layout: u64 },
    DestroyRenderPass { render_pass: u64 },
    DestroySwapchain { swapchain: u64 },
    DestroyDescriptorSetLayout { layout: u64 },
    DestroySampler { sampler: u64 },
    DestroyFence { fence: u64 },
    DestroySemaphore { semaphore: u64 },
    DestroyCommandPool { pool: u64 },
    DestroyDevice,
    DestroySurface,
    DestroyInstance,
}

/// Which destroy call a plain handle list expands to.
#[derive(Clone, Copy, Debug, PartialEq, Eq, Structural)]
pub enum HandleKind {
    Buffer,
    Memory,
    Framebuffer,
    ImageView,
    Fence,
    Semaphore,
}

/// The destroy step for one handle of the given kind.
pub open spec fn destroy_cmd_of(kind: HandleKind, h: u64) -> DestroyCmd {
    match kind {
        HandleKind::Buffer => DestroyCmd::DestroyBuffer { buffer: h },
        HandleKind::Memory => DestroyCmd::FreeMemory { memory: h },
        HandleKind::Framebuffer => DestroyCmd::DestroyFramebuffer { framebuffer: h },
        HandleKind::ImageView => DestroyCmd::DestroyImageView { view: h },
        HandleKind::Fence => DestroyCmd::DestroyFence { fence: h },
        HandleKind::Semaphore => DestroyCmd::DestroySemaphore { semaphore: h },
    }
}

/// One destroy step per handle, in list order.
pub open spec fn handle_cmds(s: Seq<u64>, kind: HandleKind) -> Seq<DestroyCmd>
    decreases s.len(),
{
    if s.len() == 0 {
        Seq::empty()
    } else {
        handle_cmds(s.drop_last(), kind).push(destroy_cmd_of(kind, s.last()))
    }
}

/// The steps freeing one sampled texture: sampler and view before the
/// image, the image before its memory.
pub open spec fn texture_cmds(t: TextureData) -> Seq<DestroyCmd> {
    seq![
        DestroyCmd::DestroySampler { sampler: t.sampler },
        DestroyCmd::DestroyImageView { view: t.image_view },
        DestroyCmd::DestroyImage { image: t.image },
        DestroyCmd::FreeMemory { memory: t.image_memory },
    ]
}

/// The steps freeing one render object's per-image uniform buffers.
pub open spec fn object_uniform_cmds(ro: RenderObject) -> Seq<DestroyCmd> {
    handle_cmds(ro.uniform_buffers@, HandleKind::Buffer) + handle_cmds(
        ro.uniform_buffers_memory@,
        HandleKind::Memory,
    )
}

/// The steps freeing one render object's device-local geometry buffers.
pub open spec fn object_geometry_cmds(ro: RenderObject) -> Seq<DestroyCmd> {
    seq![
        DestroyCmd::FreeMemory { memory: ro.vertex_data.vertex_buffer_memory },
        DestroyCmd::DestroyBuffer { buffer: ro.vertex_data.vertex_buffer },
        DestroyCmd::FreeMemory { memory: ro.vertex_data.index_buffer_memory },
        DestroyCmd::DestroyBuffer { buffer: ro.vertex_data.index_buffer },
    ]
}

/// The uniform-buffer steps of every listed render object, in key order.
pub open spec fn objects_uniform_cmds(s: Scene, keys: Seq<usize>) -> Seq<DestroyCmd>
    decreases keys.len(),
{
    if keys.len() == 0 {
        Seq::empty()
    } else {
        objects_uniform_cmds(s, keys.drop_last()) + object_uniform_cmds(
            s.render_objects@[keys.last() as int],
        )
    }
}

/// The texture steps of every listed render object, in key order.
pub open spec fn objects_texture_cmds(s: Scene, keys: Seq<usize>) -> Seq<DestroyCmd>
    decreases keys.len(),
{
    if keys.len() == 0 {
        Seq::empty()
    } else {
        objects_texture_cmds(s, keys.drop_last()) + texture_cmds(
            s.render_objects@[keys.last() as int].pbr.texture_data,
        )
    }
}

/// The geometry steps of every listed render object, in key order.
pub open spec fn objects_geometry_cmds(s: Scene, keys: Seq<usize>) -> Seq<DestroyCmd>
    decreases keys.len(),
{
    if keys.len() == 0 {
        Seq::empty()
    } else {
        objects_geometry_cmds(s, keys.drop_last()) + object_geometry_cmds(
            s.render_objects@[keys.last() as int],
        )
    }
}

/// The texture steps of every overlay atlas image, in list order.
pub open spec fn gui_texture_cmds(ts: Seq<TextureData>) -> Seq<DestroyCmd>
    decreases ts.len(),
{
    if ts.len() == 0 {
        Seq::empty()
    } else {
        gui_texture_cmds(ts.drop_last()) + texture_cmds(ts.last())
    }
}

/// The geometry steps of every overlay mesh, in list order.
pub open spec fn gui_geometry_cmds(ms: Seq<GuiMesh>) -> Seq<DestroyCmd>
    decreases ms.len(),
{
    if ms.len() == 0 {
        Seq::empty()
    } else {
        gui_geometry_cmds(ms.drop_last()) + seq![
            DestroyCmd::FreeMemory { memory: ms.last().vertex_buffer_memory },
            DestroyCmd::DestroyBuffer { buffer: ms.last().vertex_buffer },
            DestroyCmd::FreeMemory { memory: ms.last().index_buffer_memory },
            DestroyCmd::DestroyBuffer { buffer: ms.last().index_buffer },
        ]
    }
}

/// The steps freeing the sky texture, when a sky is set.
pub open spec fn sky_texture_cmds(s: Scene) -> Seq<DestroyCmd> {
    match s.skybox {
        None => Seq::empty(),
        Some(sky) => texture_cmds(sky.texture_data),
    }
}

/// The steps tearing down the swapchain-lifetime unit: attachments,
/// descriptor pool (which invalidates every descriptor set at once),
/// every per-image uniform buffer, framebuffers, command buffers,
/// pipelines, the render pass, the image views and the chain itself.
pub open spec fn swapchain_unit_cmds(data: AppData, s: Scene, keys: Seq<usize>) -> Seq<
    DestroyCmd,
> {
    seq![
        DestroyCmd::DestroyImageView { view: data.swap.color_image_view },
        DestroyCmd::FreeMemory { memory: data.swap.color_image_memory },
        DestroyCmd::DestroyImage { image: data.swap.color_image },
        DestroyCmd::DestroyImageView { view: data.swap.depth_image_view },
        DestroyCmd::FreeMemory { memory: data.swap.depth_image_memory },
        DestroyCmd::DestroyImage { image: data.swap.depth_image },
        DestroyCmd::DestroyDescriptorPool { pool: data.swap.descriptor_pool },
    ] + objects_uniform_cmds(s, keys) + handle_cmds(data.swap.global_buffer@, HandleKind::Buffer)
        + handle_cmds(data.swap.global_buffer_memory@, HandleKind::Memory) + handle_cmds(
        s.sun.buffer@,
        HandleKind::Buffer,
    ) + handle_cmds(s.sun.memory@, HandleKind::Memory) + handle_cmds(
        data.swap.framebuffers@,
        HandleKind::Framebuffer,
    ) + seq![
        DestroyCmd::FreeCommandBuffers,
        DestroyCmd::DestroyPipeline { pipeline: data.swap.pbr_pipeline },
        DestroyCmd::DestroyPipelineLayout { layout: data.swap.pbr_pipeline_layout },
        DestroyCmd::DestroyPipeline { pipeline: data.swap.skybox_pipeline },
        DestroyCmd::DestroyPipelineLayout { layout: data.swap.skybox_pipeline_layout },
        DestroyCmd::DestroyPipeline { pipeline: data.swap.gui_pipeline },
        DestroyCmd::DestroyPipelineLayout { layout: data.swap.gui_pipeline_layout },
        DestroyCmd::DestroyRenderPass { render_pass: data.swap.render_pass },
    ] + handle_cmds(data.swap.swapchain_image_views@, HandleKind::ImageView) + seq![
        DestroyCmd::DestroySwapchain { swapchain: data.swap.swapchain },
    ]
}

/// The steps tearing down what survives recreation: layouts, textures,
/// synchronization primitives, geometry, the sky, the command pools, and
/// finally the device, surface and instance.
pub open spec fn device_unit_cmds(
    data: AppData,
    s: Scene,
    keys: Seq<usize>,
    gui_textures: Seq<TextureData>,
    gui_meshes: Seq<GuiMesh>,
) -> Seq<DestroyCmd> {
    seq![DestroyCmd::DestroyDescriptorSetLayout { layout: data.device_res.gui_descriptor_layout }]
        + gui_texture_cmds(gui_textures) + objects_texture_cmds(s, keys) + seq![
        DestroyCmd::DestroyDescriptorSetLayout { layout: data.device_res.pbr_descriptor_set_layout },
        DestroyCmd::DestroyDescriptorSetLayout {
            layout: data.device_res.skybox_descriptor_set_layout,
        },
    ] + handle_cmds(data.sync.in_flight_fences@, HandleKind::Fence) + handle_cmds(
        data.sync.render_finished_semaphores@,
        HandleKind::Semaphore,
    ) + handle_cmds(data.sync.image_available_semaphores@, HandleKind::Semaphore)
        + gui_geometry_cmds(gui_meshes) + objects_geometry_cmds(s, keys) + sky_texture_cmds(s)
        + seq![
        DestroyCmd::DestroyCommandPool { pool: data.device_res.command_pool },
        DestroyCmd::DestroyCommandPool { pool: data.device_res.transient_command_pool },
        DestroyCmd::DestroyDevice,
        DestroyCmd::DestroySurface,
        DestroyCmd::DestroyInstance,
    ]
}

fn make_handle_cmd(kind: HandleKind, h: u64) -> (r: DestroyCmd)
    ensures
        r == destroy_cmd_of(kind, h),
{
    match kind {
        HandleKind::Buffer => DestroyCmd::DestroyBuffer { buffer: h },
        HandleKind::Memory => DestroyCmd::FreeMemory { memory: h },
        HandleKind::Framebuffer => DestroyCmd::DestroyFramebuffer { framebuffer: h },
        HandleKind::ImageView => DestroyCmd::DestroyImageView { view: h },
        HandleKind::Fence => DestroyCmd::DestroyFence { fence: h },
        HandleKind::Semaphore => DestroyCmd::DestroySemaphore { semaphore: h },
    }
}

/// Appends one destroy step per handle, in list order.
fn push_handle_cmds(cmds: &mut Vec<DestroyCmd>, handles: &Vec<u64>, kind: HandleKind)
    ensures
        final(cmds)@ =~= old(cmds)@ + handle_cmds(handles@, kind),
{
    let n = handles.len();
    let mut i: usize = 0;
    while i < n
        invariant
            i <= n,
            n == handles@.len(),
            cmds@ =~= old(cmds)@ + handle_cmds(handles@.subrange(0, i as int), kind),
        decreases n - i,
    {
        cmds.push(make_handle_cmd(kind, handles[i]));
        proof {
            assert(handles@.subrange(0, i + 1).drop_last() =~= handles@.subrange(0, i as int));
            assert(handles@.subrange(0, i + 1).last() == handles@[i as int]);
        }
        i = i + 1;
    }
    proof {
        assert(handles@.subrange(0, n as int) =~= handles@);
    }
}

/// Appends the four steps freeing one texture.
fn push_texture_cmds(cmds: &mut Vec<DestroyCmd>, t: &TextureData)
    ensures
        final(cmds)@ =~= old(cmds)@ + texture_cmds(*t),
{
    cmds.push(DestroyCmd::DestroySampler { sampler: t.sampler });
    cmds.push(DestroyCmd::DestroyImageView { view: t.image_view });
    cmds.push(DestroyCmd::DestroyImage { image: t.image });
    cmds.push(DestroyCmd::FreeMemory { memory: t.image_memory });
}

/// Appends the swapchain-lifetime unit's steps.
#[verifier::loop_isolation(false)]
#[verifier::rlimit(60)]
#[verifier::spinoff_prover]
fn push_swapchain_unit(
    cmds: &mut Vec<DestroyCmd>,
    data: &AppData,
    scene: &Scene,
    keys: &Vec<usize>,
)
    requires
        forall|j: int|
            0 <= j < keys@.len() ==> scene.render_objects@.dom().contains(
                #[trigger] keys@[j] as int,
            ),
    ensures
        final(cmds)@ =~= old(cmds)@ + swapchain_unit_cmds(*data, *scene, keys@),
{
    cmds.push(DestroyCmd::DestroyImageView { view: data.swap.color_image_view });
    cmds.push(DestroyCmd::FreeMemory { memory: data.swap.color_image_memory });
    cmds.push(DestroyCmd::DestroyImage { image: data.swap.color_image });
    cmds.push(DestroyCmd::DestroyImageView { view: data.swap.depth_image_view });
    cmds.push(DestroyCmd::FreeMemory { memory: data.swap.depth_image_memory });
    cmds.push(DestroyCmd::DestroyImage { image: data.swap.depth_image });
    cmds.push(DestroyCmd::DestroyDescriptorPool { pool: data.swap.descriptor_pool });
    let ghost head_uniform = cmds@;
    let kn = keys.len();
    let mut t: usize = 0;
    while t < kn
        invariant
            t <= kn,
            kn == keys@.len(),
            cmds@ =~= head_uniform + objects_uniform_cmds(*scene, keys@.subrange(0, t as int)),
        decreases kn - t,
    {
        let key = keys[t];
        let ro = match scene.render_objects.get(key) {
            Some(ro) => ro,
            None => vstd::pervasive::unreached(),
        };
        push_handle_cmds(cmds, &ro.uniform_buffers, HandleKind::Buffer);
        push_handle_cmds(cmds, &ro.uniform_buffers_memory, HandleKind::Memory);
        proof {
            assert(keys@.subrange(0, t + 1).drop_last() =~= keys@.subrange(0, t as int));
            assert(keys@.subrange(0, t + 1).last() == keys@[t as int]);
        }
        t = t + 1;
    }
    proof {
        assert(keys@.subrange(0, kn as int) =~= keys@);
    }
    push_handle_cmds(cmds, &data.swap.global_buffer, HandleKind::Buffer);
    push_handle_cmds(cmds, &data.swap.global_buffer_memory, HandleKind::Memory);
    push_handle_cmds(cmds, &scene.sun.buffer, HandleKind::Buffer);
    push_handle_cmds(cmds, &scene.sun.memory, HandleKind::Memory);
    push_handle_cmds(cmds, &data.swap.framebuffers, HandleKind::Framebuffer);
    cmds.push(DestroyCmd::FreeCommandBuffers);
    cmds.push(DestroyCmd::DestroyPipeline { pipeline: data.swap.pbr_pipeline });
    cmds.push(DestroyCmd::DestroyPipelineLayout { layout: data.swap.pbr_pipeline_layout });
    cmds.push(DestroyCmd::DestroyPipeline { pipeline: data.swap.skybox_pipeline });
    cmds.push(DestroyCmd::DestroyPipelineLayout { layout: data.swap.skybox_pipeline_layout });
    cmds.push(DestroyCmd::DestroyPipeline { pipeline: data.swap.gui_pipeline });
    cmds.push(DestroyCmd::DestroyPipelineLayout { layout: data.swap.gui_pipeline_layout });
    cmds.push(DestroyCmd::DestroyRenderPass { render_pass: data.swap.render_pass });
    push_handle_cmds(cmds, &data.swap.swapchain_image_views, HandleKind::ImageView);
    cmds.push(DestroyCmd::DestroySwapchain { swapchain: data.swap.swapchain });
}

/// Appends the device-lifetime steps.
#[verifier::loop_isolation(false)]
#[verifier::rlimit(60)]
#[verifier::spinoff_prover]
fn push_device_unit(
    cmds: &mut Vec<DestroyCmd>,
    data: &AppData,
    scene: &Scene,
    keys: &Vec<usize>,
    gui_textures: &Vec<TextureData>,
    gui_meshes: &Vec<GuiMesh>,
)
    requires
        forall|j: int|
            0 <= j < keys@.len() ==> scene.render_objects@.dom().contains(
                #[trigger] keys@[j] as int,
            ),
    ensures
        final(cmds)@ =~= old(cmds)@ + device_unit_cmds(
            *data,
            *scene,
            keys@,
            gui_textures@,
            gui_meshes@,
        ),
{
    let kn = keys.len();
    cmds.push(
        DestroyCmd::DestroyDescriptorSetLayout { layout: data.device_res.gui_descriptor_layout },
    );
    let ghost head_gui_tex = cmds@;
    let gn = gui_textures.len();
    let mut g: usize = 0;
    while g < gn
        invariant
            g <= gn,
            cmds@ =~= head_gui_tex + gui_texture_cmds(gui_textures@.subrange(0, g as int)),
        decreases gn - g,
    {
        push_texture_cmds(cmds, &gui_textures[g]);
        proof {
            assert(gui_textures@.subrange(0, g + 1).drop_last() =~= gui_textures@.subrange(
                0,
                g as int,
            ));
            assert(gui_textures@.subrange(0, g + 1).last() == gui_textures@[g as int]);
        }
        g = g + 1;
    }
    proof {
        assert(gui_textures@.subrange(0, gn as int) =~= gui_textures@);
    }
    let ghost head_obj_tex = cmds@;
    let mut t2: usize = 0;
    while t2 < kn
        invariant
            t2 <= kn,
            cmds@ =~= head_obj_tex + objects_texture_cmds(*scene, keys@.subrange(0, t2 as int)),
        decreases kn - t2,
    {
        let key = keys[t2];
        let ro = match scene.render_objects.get(key) {
            Some(ro) => ro,
            None => vstd::pervasive::unreached(),
        };
        push_texture_cmds(cmds, &ro.pbr.texture_data);
        proof {
            assert(keys@.subrange(0, t2 + 1).drop_last() =~= keys@.subrange(0, t2 as int));
            assert(keys@.subrange(0, t2 + 1).last() == keys@[t2 as int]);
        }
        t2 = t2 + 1;
    }
    proof {
        assert(keys@.subrange(0, kn as int) =~= keys@);
    }
    cmds.push(
        DestroyCmd::DestroyDescriptorSetLayout {
            layout: data.device_res.pbr_descriptor_set_layout,
        },
    );
    cmds.push(
        DestroyCmd::DestroyDescriptorSetLayout {
            layout: data.device_res.skybox_descriptor_set_layout,
        },
    );
    push_handle_cmds(cmds, &data.sync.in_flight_fences, HandleKind::Fence);
    push_handle_cmds(cmds, &data.sync.render_finished_semaphores, HandleKind::Semaphore);
    push_handle_cmds(cmds, &data.sync.image_available_semaphores, HandleKind::Semaphore);
    let ghost head_gui_geom = cmds@;
    let mn = gui_meshes.len();
    let mut m: usize = 0;
    while m < mn
        invariant
            m <= mn,
            cmds@ =~= head_gui_geom + gui_geometry_cmds(gui_meshes@.subrange(0, m as int)),
        decreases mn - m,
    {
        let mesh = &gui_meshes[m];
        cmds.push(DestroyCmd::FreeMemory { memory: mesh.vertex_buffer_memory });
        cmds.push(DestroyCmd::DestroyBuffer { buffer: mesh.vertex_buffer });
        cmds.push(DestroyCmd::FreeMemory { memory: mesh.index_buffer_memory });
        cmds.push(DestroyCmd::DestroyBuffer { buffer: mesh.index_buffer });
        proof {
            assert(gui_meshes@.subrange(0, m + 1).drop_last() =~= gui_meshes@.subrange(
                0,
                m as int,
            ));
            assert(gui_meshes@.subrange(0, m + 1).last() == gui_meshes@[m as int]);
        }
        m = m + 1;
    }
    proof {
        assert(gui_meshes@.subrange(0, mn as int) =~= gui_meshes@);
    }
    let ghost head_obj_geom = cmds@;
    let mut t3: usize = 0;
    while t3 < kn
        invariant
            t3 <= kn,
            cmds@ =~= head_obj_geom + objects_geometry_cmds(*scene, keys@.subrange(0, t3 as int)),
        decreases kn - t3,
    {
        let key = keys[t3];
        let ro = match scene.render_objects.get(key) {
            Some(ro) => ro,
            None => vstd::pervasive::unreached(),
        };
        cmds.push(DestroyCmd::FreeMemory { memory: ro.vertex_data.vertex_buffer_memory });
        cmds.push(DestroyCmd::DestroyBuffer { buffer: ro.vertex_data.vertex_buffer });
        cmds.push(DestroyCmd::FreeMemory { memory: ro.vertex_data.index_buffer_memory });
        cmds.push(DestroyCmd::DestroyBuffer { buffer: ro.vertex_data.index_buffer });
        proof {
            assert(keys@.subrange(0, t3 + 1).drop_last() =~= keys@.subrange(0, t3 as int));
            assert(keys@.subrange(0, t3 + 1).last() == keys@[t3 as int]);
        }
        t3 = t3 + 1;
    }
    proof {
        assert(keys@.subrange(0, kn as int) =~= keys@);
    }
    match &scene.skybox {
        Some(sky) => {
            push_texture_cmds(cmds, &sky.texture_data);
        },
        None => {},
    }
    cmds.push(DestroyCmd::DestroyCommandPool { pool: data.device_res.command_pool });
    cmds.push(DestroyCmd::DestroyCommandPool { pool: data.device_res.transient_command_pool });
    cmds.push(DestroyCmd::DestroyDevice);
    cmds.push(DestroyCmd::DestroySurface);
    cmds.push(DestroyCmd::DestroyInstance);
}

/// The whole teardown plan for window close: the device-idle barrier,
/// then the swapchain-lifetime unit, then everything device-lifetime, in
/// reverse creation order. Returns the render-object keys walked, in
/// ascending order, beside the steps.
pub fn teardown_plan(
    data: &AppData,
    scene: &Scene,
    gui_textures: &Vec<TextureData>,
    gui_meshes: &Vec<GuiMesh>,
) -> (r: (Vec<usize>, Vec<DestroyCmd>))
    ensures
        r.1@ =~= seq![DestroyCmd::WaitDeviceIdle] + swapchain_unit_cmds(*data, *scene, r.0@)
            + device_unit_cmds(*data, *scene, r.0@, gui_textures@, gui_meshes@),
        forall|j: int|
            0 <= j < r.0@.len() ==> scene.render_objects@.dom().contains(#[trigger] r.0@[j] as int),
        forall|k: usize| scene.render_objects@.dom().contains(k as int) ==> r.0@.contains(k),
        forall|j1: int, j2: int| 0 <= j1 < j2 < r.0@.len() ==> r.0@[j1] < r.0@[j2],
{
    let keys = scene.render_objects.keys();
    let mut cmds: Vec<DestroyCmd> = Vec::new();
    cmds.push(DestroyCmd::WaitDeviceIdle);
    push_swapchain_unit(&mut cmds, data, scene, &keys);
    push_device_unit(&mut cmds, data, scene, &keys, gui_textures, gui_meshes);
    (keys, cmds)
}

} // verus!
