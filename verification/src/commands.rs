//! The per-image command stream: one render pass with three subpasses —
//! overlay, opaque geometry, sky — recorded as plain commands for the
//! caller to replay against the driver. Draw calls are instanced: each
//! render object draws once with an instance count equal to its instance
//! list length, up to the uniform array's capacity.

use crate::scene::{RenderId, Scene};
use crate::texture::PatchRegion;
use crate::transform::Mat4f;
use vstd::prelude::*;

verus! {

/// The most instances one draw can carry: the model-matrix array in the
/// per-object uniform holds this many entries. A longer instance list is
/// deliberately clamped to this bound — the draw reads only the matrices
/// that were packed — instead of indexing past the array.
pub const MAX_INSTANCES_PER_DRAW: usize = 10;

/// One recorded command.
#[derive(Clone, Copy, Debug, PartialEq, Eq, Structural)]
pub enum Cmd {
    BeginRenderPass { render_pass: u64, framebuffer: u64 },
    BindPipeline { pipeline: u64 },
    BindDescriptorSet { set: u64 },
    BindVertexBuffer { buffer: u64 },
    BindIndexBuffer { buffer: u64 },
    SetScissor { x: i32, y: i32, width: u32, height: u32 },
    PushConstants,
    DrawIndexed { index_count: u32, instance_count: u32 },
    Draw { vertex_count: u32, instance_count: u32 },
    NextSubpass,
    EndRenderPass,
}

/// One overlay mesh ready to draw: its buffers, per-image descriptor
/// sets, and the clip rectangle in pixels.
#[derive(Clone, Debug)]
pub struct GuiMesh {
    pub vertex_buffer: u64,
    pub vertex_buffer_memory: u64,
    pub index_buffer: u64,
    pub index_buffer_memory: u64,
    pub descriptor_sets: Vec<u64>,
    pub index_count: u32,
    pub clip: PatchRegion,
}

/// A clip rectangle cut down to the framebuffer: the offset stays inside
/// the extent and the size never reaches past its edge.
pub fn clamp_scissor(clip: &PatchRegion, extent_width: u32, extent_height: u32) -> (r: (
    u32,
    u32,
    u32,
    u32,
))
    ensures
        r.0 == if clip.x < extent_width {
            clip.x
        } else {
            extent_width
        },
        r.1 == if clip.y < extent_height {
            clip.y
        } else {
            extent_height
        },
        r.0 + r.2 <= extent_width,
        r.1 + r.3 <= extent_height,
        r.2 == if clip.width <= extent_width - r.0 {
            clip.width
        } else {
            (extent_width - r.0) as u32
        },
        r.3 == if clip.height <= extent_height - r.1 {
            clip.height
        } else {
            (extent_height - r.1) as u32
        },
{
    let x = if clip.x < extent_width {
        clip.x
    } else {
        extent_width
    };
    let y = if clip.y < extent_height {
        clip.y
    } else {
        extent_height
    };
    let w = if clip.width <= extent_width - x {
        clip.width
    } else {
        extent_width - x
    };
    let h = if clip.height <= extent_height - y {
        clip.height
    } else {
        extent_height - y
    };
    (x, y, w, h)
}

/// The commands that draw one overlay mesh in subpass 0.
pub open spec fn gui_mesh_cmds(
    mesh: GuiMesh,
    image_index: int,
    extent_width: u32,
    extent_height: u32,
) -> Seq<Cmd> {
    let x = if mesh.clip.x < extent_width {
        mesh.clip.x
    } else {
        extent_width
    };
    let y = if mesh.clip.y < extent_height {
        mesh.clip.y
    } else {
        extent_height
    };
    let w = if mesh.clip.width <= extent_width - x {
        mesh.clip.width
    } else {
        (extent_width - x) as u32
    };
    let h = if mesh.clip.height <= extent_height - y {
        mesh.clip.height
    } else {
        (extent_height - y) as u32
    };
    seq![
        Cmd::BindVertexBuffer { buffer: mesh.vertex_buffer },
        Cmd::BindIndexBuffer { buffer: mesh.index_buffer },
        Cmd::BindDescriptorSet {
            set: if image_index < mesh.descriptor_sets@.len() {
                mesh.descriptor_sets@[image_index]
            } else {
                0
            },
        },
        Cmd::SetScissor { x: x as i32, y: y as i32, width: w, height: h },
        Cmd::DrawIndexed { index_count: mesh.index_count, instance_count: 1 },
    ]
}

/// The commands of the whole overlay subpass, mesh by mesh in order.
pub open spec fn gui_cmds(
    meshes: Seq<GuiMesh>,
    image_index: int,
    extent_width: u32,
    extent_height: u32,
) -> Seq<Cmd>
    decreases meshes.len(),
{
    if meshes.len() == 0 {
        Seq::empty()
    } else {
        gui_cmds(meshes.drop_last(), image_index, extent_width, extent_height) + gui_mesh_cmds(
            meshes.last(),
            image_index,
            extent_width,
            extent_height,
        )
    }
}

/// A length clamped into the 32-bit range the draw command carries.
pub open spec fn sat_u32(n: nat) -> u32 {
    if n > u32::MAX {
        u32::MAX
    } else {
        n as u32
    }
}

/// The instance count of one draw: the object's instance list length,
/// capped at the uniform array capacity.
pub open spec fn draw_instance_count(instances: nat) -> nat {
    if instances <= MAX_INSTANCES_PER_DRAW {
        instances
    } else {
        MAX_INSTANCES_PER_DRAW as nat
    }
}

/// The commands that draw one render object in subpass 1.
pub open spec fn pbr_object_cmds(s: Scene, rid: RenderId, image_index: int) -> Seq<Cmd> {
    let ro = s.render_at(rid);
    seq![
        Cmd::BindVertexBuffer { buffer: ro.vertex_data.vertex_buffer },
        Cmd::BindIndexBuffer { buffer: ro.vertex_data.index_buffer },
        Cmd::BindDescriptorSet {
            set: if image_index < ro.descriptor_sets@.len() {
                ro.descriptor_sets@[image_index]
            } else {
                0
            },
        },
        Cmd::PushConstants,
        Cmd::DrawIndexed {
            index_count: sat_u32(ro.vertex_data.indices@.len()),
            instance_count: draw_instance_count(ro.instances@.len()) as u32,
        },
    ]
}

/// The commands of the opaque subpass for the given keys, in order.
pub open spec fn pbr_cmds(s: Scene, keys: Seq<usize>, image_index: int) -> Seq<Cmd>
    decreases keys.len(),
{
    if keys.len() == 0 {
        Seq::empty()
    } else {
        pbr_cmds(s, keys.drop_last(), image_index) + pbr_object_cmds(
            s,
            RenderId(keys.last()),
            image_index,
        )
    }
}

/// The commands of the sky subpass: a single four-vertex strip, only
/// when a sky is set.
pub open spec fn sky_cmds(s: Scene, pipeline: u64, image_index: int) -> Seq<Cmd> {
    match s.skybox {
        None => Seq::empty(),
        Some(sky) => seq![
            Cmd::BindPipeline { pipeline },
            Cmd::BindDescriptorSet {
                set: if image_index < sky.descriptors@.len() {
                    sky.descriptors@[image_index]
                } else {
                    0
                },
            },
            Cmd::Draw { vertex_count: 4, instance_count: 1 },
        ],
    }
}

/// Records the command stream for one swapchain image: begin the render
/// pass on that image's framebuffer, draw the overlay meshes clipped to
/// their rectangles, advance to the opaque subpass and draw every render
/// object instanced, advance to the sky subpass and draw the sky if one
/// is set, then end the pass. Returns the render-object keys drawn, in
/// ascending order, beside the commands.
#[verifier::loop_isolation(false)]
#[verifier::rlimit(100)]
#[verifier::spinoff_prover]
pub fn record_command_buffer(
    scene: &Scene,
    gui_meshes: &Vec<GuiMesh>,
    render_pass: u64,
    framebuffer: u64,
    gui_pipeline: u64,
    pbr_pipeline: u64,
    skybox_pipeline: u64,
    extent_width: u32,
    extent_height: u32,
    image_index: usize,
) -> (r: (Vec<usize>, Vec<Cmd>))
    ensures
        r.1@ =~= seq![Cmd::BeginRenderPass { render_pass, framebuffer }]
            + seq![Cmd::BindPipeline { pipeline: gui_pipeline }]
            + gui_cmds(gui_meshes@, image_index as int, extent_width, extent_height)
            + seq![Cmd::NextSubpass] + seq![Cmd::BindPipeline { pipeline: pbr_pipeline }]
            + pbr_cmds(*scene, r.0@, image_index as int) + seq![Cmd::NextSubpass] + sky_cmds(
            *scene,
            skybox_pipeline,
            image_index as int,
        ) + seq![Cmd::EndRenderPass],
        forall|j: int|
            0 <= j < r.0@.len() ==> scene.render_objects@.dom().contains(#[trigger] r.0@[j] as int),
        forall|k: usize| scene.render_objects@.dom().contains(k as int) ==> r.0@.contains(k),
        forall|j1: int, j2: int| 0 <= j1 < j2 < r.0@.len() ==> r.0@[j1] < r.0@[j2],
{
    let mut cmds: Vec<Cmd> = Vec::new();
    cmds.push(Cmd::BeginRenderPass { render_pass, framebuffer });
    cmds.push(Cmd::BindPipeline { pipeline: gui_pipeline });
    let ghost head = cmds@;
    let gn = gui_meshes.len();
    let mut g: usize = 0;
    while g < gn
        invariant
            g <= gn,
            cmds@ =~= head + gui_cmds(
                gui_meshes@.subrange(0, g as int),
                image_index as int,
                extent_width,
                extent_height,
            ),
        decreases gn - g,
    {
        let mesh = &gui_meshes[g];
        cmds.push(Cmd::BindVertexBuffer { buffer: mesh.vertex_buffer });
        cmds.push(Cmd::BindIndexBuffer { buffer: mesh.index_buffer });
        let set = if image_index < mesh.descriptor_sets.len() {
            mesh.descriptor_sets[image_index]
        } else {
            0
        };
        cmds.push(Cmd::BindDescriptorSet { set });
        let (sx, sy, sw, sh) = clamp_scissor(&mesh.clip, extent_width, extent_height);
        cmds.push(Cmd::SetScissor { x: sx as i32, y: sy as i32, width: sw, height: sh });
        cmds.push(Cmd::DrawIndexed { index_count: mesh.index_count, instance_count: 1 });
        proof {
            assert(gui_meshes@.subrange(0, g + 1).drop_last() =~= gui_meshes@.subrange(
                0,
                g as int,
            ));
            assert(gui_meshes@.subrange(0, g + 1).last() == gui_meshes@[g as int]);
        }
        g = g + 1;
    }
    proof {
        assert(gui_meshes@.subrange(0, gn as int) =~= gui_meshes@);
    }
    cmds.push(Cmd::NextSubpass);
    cmds.push(Cmd::BindPipeline { pipeline: pbr_pipeline });
    let ghost head2 = cmds@;
    let keys = scene.render_objects.keys();
    let kn = keys.len();
    let mut t: usize = 0;
    while t < kn
        invariant
            t <= kn,
            kn == keys@.len(),
            cmds@ =~= head2 + pbr_cmds(*scene, keys@.subrange(0, t as int), image_index as int),
        decreases kn - t,
    {
        let key = keys[t];
        let ro = match scene.render_objects.get(key) {
            Some(ro) => ro,
            None => vstd::pervasive::unreached(),
        };
        cmds.push(Cmd::BindVertexBuffer { buffer: ro.vertex_data.vertex_buffer });
        cmds.push(Cmd::BindIndexBuffer { buffer: ro.vertex_data.index_buffer });
        let set = if image_index < ro.descriptor_sets.len() {
            ro.descriptor_sets[image_index]
        } else {
            0
        };
        cmds.push(Cmd::BindDescriptorSet { set });
        cmds.push(Cmd::PushConstants);
        let ilen = ro.vertex_data.indices.len();
        let index_count: u32 = if ilen > u32::MAX as usize {
            u32::MAX
        } else {
            ilen as u32
        };
        let inst = ro.instances.len();
        let instance_count: u32 = if inst <= MAX_INSTANCES_PER_DRAW {
            inst as u32
        } else {
            MAX_INSTANCES_PER_DRAW as u32
        };
        cmds.push(Cmd::DrawIndexed { index_count, instance_count });
        proof {
            assert(keys@.subrange(0, t + 1).drop_last() =~= keys@.subrange(0, t as int));
            assert(keys@.subrange(0, t + 1).last() == keys@[t as int]);
        }
        t = t + 1;
    }
    proof {
        assert(keys@.subrange(0, kn as int) =~= keys@);
    }
    cmds.push(Cmd::NextSubpass);
    match &scene.skybox {
        Some(sky) => {
            cmds.push(Cmd::BindPipeline { pipeline: skybox_pipeline });
            let set = if image_index < sky.descriptors.len() {
                sky.descriptors[image_index]
            } else {
                0
            };
            cmds.push(Cmd::BindDescriptorSet { set });
            cmds.push(Cmd::Draw { vertex_count: 4, instance_count: 1 });
        },
        None => {},
    }
    cmds.push(Cmd::EndRenderPass);
    (keys, cmds)
}

/// The model matrices packed into one render object's per-frame uniform:
/// the global matrix of each instancing game object, in instance-list
/// order, capped at the array capacity. An instance whose parent chain
/// cannot be resolved contributes the identity.
pub fn pack_model_matrices(scene: &Scene, rid: RenderId) -> (r: Vec<Mat4f>)
    requires
        scene.wf(),
        scene.has_render(rid),
    ensures
        r@.len() == draw_instance_count(scene.render_at(rid).instances@.len()),
        forall|k: int|
            0 <= k < r@.len() ==> r@[k] == match crate::scene::global_of(
                scene.objects@,
                (#[trigger] scene.render_at(rid).instances@[k]).0 as int,
                scene.objects.capacity_spec(),
            ) {
                Some(m) => m,
                None => Mat4f::identity_spec(),
            },
{
    let ro = match scene.render_objects.get(rid.0) {
        Some(ro) => ro,
        None => vstd::pervasive::unreached(),
    };
    let total = ro.instances.len();
    let n = if total <= MAX_INSTANCES_PER_DRAW {
        total
    } else {
        MAX_INSTANCES_PER_DRAW
    };
    let mut r: Vec<Mat4f> = Vec::new();
    let mut k: usize = 0;
    while k < n
        invariant
            k <= n,
            n <= ro.instances@.len(),
            *ro == scene.render_at(rid),
            r@.len() == k,
            forall|k1: int|
                0 <= k1 < k ==> r@[k1] == match crate::scene::global_of(
                    scene.objects@,
                    (#[trigger] ro.instances@[k1]).0 as int,
                    scene.objects.capacity_spec(),
                ) {
                    Some(m) => m,
                    None => Mat4f::identity_spec(),
                },
        decreases n - k,
    {
        let oid = ro.instances[k];
        let m = match scene.global_matrix(oid) {
            Some(m) => m,
            None => Mat4f::identity(),
        };
        r.push(m);
        k = k + 1;
    }
    r
}

} // verus!
