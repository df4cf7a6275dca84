use vulcan_engine::allocator::HandleAllocator;
use vulcan_engine::app_data::{
    descriptor_pool_sizes, recreate_swapchain, AppData, DeviceResources, SwapchainResources,
    SyncResources,
};
use vulcan_engine::lifecycle::{
    AcquireResult, FrameAction, FrameEnd, FrameLifecycle, PresentResult, MAX_FRAMES_IN_FLIGHT,
};
use vulcan_engine::geometry::{Vec2Bits, Vec3Bits, VertexData, VertexPbr};
use vulcan_engine::scene::{GameObject, RenderId, RenderObject, Scene, PBR};
use vulcan_engine::texture::TextureData;
use vulcan_engine::transform::{Transform, Vec4f};

fn draw_and_present(fl: &mut FrameLifecycle, image_index: u32) {
    let action = fl.begin_frame(AcquireResult::Success { image_index, suboptimal: false });
    assert!(matches!(action, FrameAction::Draw { .. }));
    let end = fl.finish_frame(PresentResult::Success { suboptimal: false });
    assert_eq!(end, FrameEnd::Continue);
}

#[test]
fn frame_index_cycles_after_max_frames() {
    let mut fl = FrameLifecycle::new(MAX_FRAMES_IN_FLIGHT, 3, false);
    assert_eq!(fl.frame, 0);
    for i in 0..MAX_FRAMES_IN_FLIGHT {
        draw_and_present(&mut fl, (i % 3) as u32);
    }
    assert_eq!(fl.frame, 0);
}

#[test]
fn frame_index_advances_modulo() {
    let mut fl = FrameLifecycle::new(3, 3, false);
    draw_and_present(&mut fl, 0);
    assert_eq!(fl.frame, 1);
    draw_and_present(&mut fl, 1);
    assert_eq!(fl.frame, 2);
    draw_and_present(&mut fl, 2);
    assert_eq!(fl.frame, 0);
}

#[test]
fn acquire_out_of_date_recreates() {
    let mut fl = FrameLifecycle::new(2, 2, false);
    assert_eq!(fl.begin_frame(AcquireResult::OutOfDate), FrameAction::Recreate);
    assert_eq!(fl.frame, 0);
}

#[test]
fn acquire_suboptimal_recreates_unless_tolerated() {
    let mut strict = FrameLifecycle::new(2, 2, false);
    assert_eq!(
        strict.begin_frame(AcquireResult::Success { image_index: 0, suboptimal: true }),
        FrameAction::Recreate
    );
    let mut tolerant = FrameLifecycle::new(2, 2, true);
    let action =
        tolerant.begin_frame(AcquireResult::Success { image_index: 0, suboptimal: true });
    assert!(matches!(action, FrameAction::Draw { image_index: 0, .. }));
}

#[test]
fn acquire_error_abandons_frame() {
    let mut fl = FrameLifecycle::new(2, 2, false);
    assert_eq!(
        fl.begin_frame(AcquireResult::Error { code: -4 }),
        FrameAction::Abandon { code: -4 }
    );
}

#[test]
fn image_claimed_by_previous_frame_is_reported() {
    let mut fl = FrameLifecycle::new(3, 2, false);
    let a = fl.begin_frame(AcquireResult::Success { image_index: 0, suboptimal: false });
    assert_eq!(a, FrameAction::Draw { image_index: 0, wait_fence_of_frame: None });
    fl.finish_frame(PresentResult::Success { suboptimal: false });
    // same image handed out again: its previous owner (frame slot 0) is
    // reported so the caller can wait on that fence
    let b = fl.begin_frame(AcquireResult::Success { image_index: 0, suboptimal: false });
    assert_eq!(b, FrameAction::Draw { image_index: 0, wait_fence_of_frame: Some(0) });
}

#[test]
fn present_suboptimal_recreates_and_advances() {
    let mut fl = FrameLifecycle::new(2, 2, false);
    fl.begin_frame(AcquireResult::Success { image_index: 0, suboptimal: false });
    let end = fl.finish_frame(PresentResult::Success { suboptimal: true });
    assert_eq!(end, FrameEnd::Recreate);
    assert_eq!(fl.frame, 1);
}

#[test]
fn resize_flag_forces_recreation_once() {
    let mut fl = FrameLifecycle::new(2, 2, false);
    fl.set_resized();
    fl.begin_frame(AcquireResult::Success { image_index: 0, suboptimal: false });
    let end = fl.finish_frame(PresentResult::Success { suboptimal: false });
    assert_eq!(end, FrameEnd::Recreate);
    assert!(!fl.resized);
    assert_eq!(fl.frame, 1);
}

#[test]
fn present_error_does_not_advance() {
    let mut fl = FrameLifecycle::new(2, 2, false);
    fl.begin_frame(AcquireResult::Success { image_index: 0, suboptimal: false });
    let end = fl.finish_frame(PresentResult::Error { code: -7 });
    assert_eq!(end, FrameEnd::Abandon { code: -7 });
    assert_eq!(fl.frame, 0);
}

fn empty_app_data() -> AppData {
    AppData {
        device_res: DeviceResources {
            pbr_descriptor_set_layout: 1,
            skybox_descriptor_set_layout: 2,
            gui_descriptor_layout: 3,
            command_pool: 4,
            transient_command_pool: 5,
        },
        swap: SwapchainResources {
            swapchain: 0,
            swapchain_images: vec![],
            swapchain_image_views: vec![],
            render_pass: 0,
            pbr_pipeline_layout: 0,
            pbr_pipeline: 0,
            skybox_pipeline_layout: 0,
            skybox_pipeline: 0,
            gui_pipeline_layout: 0,
            gui_pipeline: 0,
            framebuffers: vec![],
            command_buffers: vec![],
            global_buffer: vec![],
            global_buffer_memory: vec![],
            descriptor_pool: 0,
            depth_image: 0,
            depth_image_memory: 0,
            depth_image_view: 0,
            color_image: 0,
            color_image_memory: 0,
            color_image_view: 0,
        },
        sync: SyncResources {
            image_available_semaphores: vec![10, 11, 12],
            render_finished_semaphores: vec![13, 14, 15],
            in_flight_fences: vec![16, 17, 18],
        },
    }
}

#[test]
fn recreation_resizes_every_per_image_resource() {
    let mut scene = Scene::new();
    let mut alloc = HandleAllocator::new();
    let rid = RenderId(scene.render_objects.insert(render_object_with_buffers()));
    scene
        .insert_instance(GameObject {
            name: "a".to_owned(),
            transform: Transform::default(),
            parent: None,
            children: vec![],
            render_objects: vec![rid],
        })
        .unwrap();
    let mut data = empty_app_data();
    let device_before = data.device_res;
    let sync_before = data.sync.in_flight_fences.clone();

    recreate_swapchain(&mut data, &mut scene, &mut alloc, 2);

    // swapchain-lifetime resources all track the new image count
    assert_eq!(data.swap.swapchain_images.len(), 2);
    assert_eq!(data.swap.framebuffers.len(), 2);
    assert_eq!(data.swap.command_buffers.len(), 2);
    assert_eq!(data.swap.global_buffer.len(), 2);
    assert_eq!(data.swap.global_buffer_memory.len(), 2);
    // uniform buffer count invariant for every render object
    let ro = scene.render_objects.get(rid.0).unwrap();
    assert_eq!(ro.uniform_buffers.len(), 2);
    assert_eq!(ro.uniform_buffers_memory.len(), 2);
    assert_eq!(ro.descriptor_sets.len(), 2);
    assert_eq!(ro.instances.len(), 1);
    // the light's buffers track the count too
    assert_eq!(scene.sun.buffer.len(), 2);
    assert_eq!(scene.sun.memory.len(), 2);
    // device-lifetime resources survive untouched
    assert_eq!(data.device_res, device_before);
    assert_eq!(data.sync.in_flight_fences, sync_before);
}

#[test]
fn descriptor_pool_sizes_formula() {
    let (uniforms, samplers, max_sets) = descriptor_pool_sizes(3, 30);
    assert_eq!(uniforms, 3 * (30 + 60));
    assert_eq!(samplers, 3 * 30 + 3);
    assert_eq!(max_sets, 3 * 30);
}

fn render_object_with_buffers() -> RenderObject {
    RenderObject {
        vertex_data: VertexData {
            vertices: vec![VertexPbr {
                pos: Vec3Bits { x: 0, y: 0, z: 0 },
                normal: Vec3Bits { x: 0, y: 0, z: 0 },
                tex_coord: Vec2Bits { x: 0, y: 0 },
            }],
            indices: vec![0],
            vertex_buffer: 100,
            vertex_buffer_memory: 101,
            index_buffer: 102,
            index_buffer_memory: 103,
            vertex_capacity: 1,
            index_capacity: 1,
            persistent_mapping: false,
        },
        pbr: PBR {
            texture_data: TextureData {
                mip_levels: 1,
                image: 104,
                image_memory: 105,
                image_view: 106,
                sampler: 107,
            },
            base: Vec4f { x: 65536, y: 65536, z: 65536, w: 65536 },
        },
        uniform_buffers: vec![1, 2, 3],
        uniform_buffers_memory: vec![4, 5, 6],
        descriptor_sets: vec![7, 8, 9],
        instances: vec![],
    }
}
