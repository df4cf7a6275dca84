use vulcan_engine::allocator::HandleAllocator;
use vulcan_engine::app_data::{
    recreate_swapchain, AppData, DeviceResources, SwapchainResources, SyncResources,
};
use vulcan_engine::assets::load_primitive;
use vulcan_engine::commands::GuiMesh;
use vulcan_engine::render_pass::{
    render_pass_description, AttachmentFormat, AttachmentLayout, LoadOp, StoreOp,
    SUBPASS_EXTERNAL,
};
use vulcan_engine::scene::Scene;
use vulcan_engine::teardown::{teardown_plan, DestroyCmd};
use vulcan_engine::texture::TextureData;
use vulcan_engine::transform::{Transform, Vec4f};

#[test]
fn render_pass_table_matches_the_three_subpass_chain() {
    let msaa = 4;
    let (attachments, subpasses, deps) = render_pass_description(msaa);
    assert_eq!(attachments.len(), 3);
    // multisampled color, cleared, handed on in color layout
    assert_eq!(attachments[0].format, AttachmentFormat::SwapchainColor);
    assert_eq!(attachments[0].samples, msaa);
    assert_eq!(attachments[0].load_op, LoadOp::Clear);
    assert_eq!(attachments[0].final_layout, AttachmentLayout::ColorAttachment);
    // multisampled depth
    assert_eq!(attachments[1].format, AttachmentFormat::Depth);
    assert_eq!(attachments[1].final_layout, AttachmentLayout::DepthStencilAttachment);
    // single-sample resolve target, presented
    assert_eq!(attachments[2].samples, 1);
    assert_eq!(attachments[2].load_op, LoadOp::DontCare);
    assert_eq!(attachments[2].store_op, StoreOp::Store);
    assert_eq!(attachments[2].final_layout, AttachmentLayout::PresentSrc);
    // three subpasses sharing color 0 / depth 1 / resolve 2
    assert_eq!(subpasses.len(), 3);
    for s in &subpasses {
        assert_eq!((s.color_attachment, s.depth_attachment, s.resolve_attachment), (0, 1, 2));
    }
    // the dependency chain external -> 0 -> 1 -> 2
    assert_eq!(deps.len(), 3);
    assert_eq!((deps[0].src_subpass, deps[0].dst_subpass), (SUBPASS_EXTERNAL, 0));
    assert_eq!((deps[1].src_subpass, deps[1].dst_subpass), (0, 1));
    assert_eq!((deps[2].src_subpass, deps[2].dst_subpass), (1, 2));
    // only the dependency into the opaque subpass makes depth writes visible
    assert!(deps[1].dst_access_mask != deps[0].dst_access_mask);
    assert_eq!(deps[0].dst_access_mask, deps[2].dst_access_mask);
}

fn app_data_with_sync() -> AppData {
    AppData {
        device_res: DeviceResources {
            pbr_descriptor_set_layout: 900,
            skybox_descriptor_set_layout: 901,
            gui_descriptor_layout: 902,
            command_pool: 903,
            transient_command_pool: 904,
        },
        swap: SwapchainResources {
            swapchain: 0,
            swapchain_images: vec![],
            swapchain_image_views: vec![],
            render_pass: 0,
            pbr_pipeline_layout: 0,
            pbr_pipeline: 0,
            skybox_pipeline_layout: 0,
            skybox_pipeline: 0,
            gui_pipeline_layout: 0,
            gui_pipeline: 0,
            framebuffers: vec![],
            command_buffers: vec![],
            global_buffer: vec![],
            global_buffer_memory: vec![],
            descriptor_pool: 0,
            depth_image: 0,
            depth_image_memory: 0,
            depth_image_view: 0,
            color_image: 0,
            color_image_memory: 0,
            color_image_view: 0,
        },
        sync: SyncResources {
            image_available_semaphores: vec![910, 911],
            render_finished_semaphores: vec![912, 913],
            in_flight_fences: vec![914, 915],
        },
    }
}

#[test]
fn teardown_starts_with_the_idle_barrier_and_ends_with_the_instance() {
    let mut scene = Scene::new();
    let mut alloc = HandleAllocator::new();
    let mut data = app_data_with_sync();
    recreate_swapchain(&mut data, &mut scene, &mut alloc, 2);
    load_primitive(
        &mut scene,
        &mut alloc,
        2,
        vec![],
        vec![0],
        1,
        1,
        Vec4f { x: 65536, y: 65536, z: 65536, w: 65536 },
        "a".to_owned(),
        Transform::default(),
        None,
    );
    let gui_textures: Vec<TextureData> = vec![];
    let gui_meshes: Vec<GuiMesh> = vec![];
    let (keys, plan) = teardown_plan(&data, &scene, &gui_textures, &gui_meshes);
    assert_eq!(keys.len(), 1);
    assert_eq!(plan.first(), Some(&DestroyCmd::WaitDeviceIdle));
    assert_eq!(plan.last(), Some(&DestroyCmd::DestroyInstance));
    // the chain itself falls before the device-lifetime teardown
    let swap_pos = plan
        .iter()
        .position(|c| matches!(c, DestroyCmd::DestroySwapchain { .. }))
        .unwrap();
    let device_pos = plan.iter().position(|c| matches!(c, DestroyCmd::DestroyDevice)).unwrap();
    let pool_pos = plan
        .iter()
        .position(|c| matches!(c, DestroyCmd::DestroyDescriptorPool { .. }))
        .unwrap();
    assert!(pool_pos < swap_pos);
    assert!(swap_pos < device_pos);
    // the render object's per-image uniform buffers fall inside the
    // swapchain unit: two buffers and two allocations for two images,
    // plus global and light buffers, all before the swapchain goes
    let buffer_destroys_before_swap = plan[..swap_pos]
        .iter()
        .filter(|c| matches!(c, DestroyCmd::DestroyBuffer { .. }))
        .count();
    assert_eq!(buffer_destroys_before_swap, 2 + 2 + 2);
    // device, surface, instance close the plan in that order
    let n = plan.len();
    assert_eq!(plan[n - 3], DestroyCmd::DestroyDevice);
    assert_eq!(plan[n - 2], DestroyCmd::DestroySurface);
    assert_eq!(plan[n - 1], DestroyCmd::DestroyInstance);
}
