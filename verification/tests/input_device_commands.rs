use vulcan_engine::allocator::{
    create_buffer, get_memory_type_index, AllocError, HandleAllocator,
};
use vulcan_engine::camera::Camera;
use vulcan_engine::commands::{
    clamp_scissor, pack_model_matrices, record_command_buffer, Cmd, GuiMesh,
};
use vulcan_engine::device::{
    get_max_msaa_samples, pick_physical_device, PhysicalDeviceInfo, QueueFamilyIndices,
    QueueFamilyInfo, SAMPLE_1, SAMPLE_2, SAMPLE_16, SAMPLE_64,
};
use vulcan_engine::fx::{fx_add, fx_mul, FX_ONE};
use vulcan_engine::input::{ElementState, InputState, KeyCode, KeyState, WindowEvent};
use vulcan_engine::scene::{GameObject, RenderId, Scene};
use vulcan_engine::texture::PatchRegion;
use vulcan_engine::transform::{Quatf, Transform, Vec3f};

#[test]
fn fixed_point_arithmetic() {
    assert_eq!(fx_mul(FX_ONE, 123456), 123456);
    assert_eq!(fx_mul(2 * FX_ONE, 3 * FX_ONE), 6 * FX_ONE);
    assert_eq!(fx_mul(-2 * FX_ONE, 3 * FX_ONE), -6 * FX_ONE);
    assert_eq!(fx_add(i64::MAX, 1), i64::MAX);
    assert_eq!(fx_add(i64::MIN, -1), i64::MIN);
    assert_eq!(fx_add(1, 2), 3);
}

#[test]
fn key_state_queries() {
    assert!(KeyState::Hold.is_held());
    assert!(KeyState::Hold.is_down());
    assert!(KeyState::Enter.is_down());
    assert!(KeyState::Enter.is_entered());
    assert!(KeyState::Release.is_up());
    assert!(KeyState::Release.is_released());
    assert!(KeyState::Nothing.is_up());
    assert!(!KeyState::Nothing.is_down());
}

#[test]
fn key_transitions() {
    let p = ElementState::Pressed;
    let r = ElementState::Released;
    assert_eq!(InputState::set_key(&KeyState::Nothing, &p), KeyState::Enter);
    assert_eq!(InputState::set_key(&KeyState::Enter, &p), KeyState::Hold);
    assert_eq!(InputState::set_key(&KeyState::Hold, &p), KeyState::Hold);
    assert_eq!(InputState::set_key(&KeyState::Release, &p), KeyState::Enter);
    assert_eq!(InputState::set_key(&KeyState::Hold, &r), KeyState::Release);
}

#[test]
fn keyboard_events_touch_one_key() {
    let mut input = InputState::new();
    input.read_event(&WindowEvent::KeyboardInput {
        state: ElementState::Pressed,
        key: KeyCode::KeyW,
    });
    assert_eq!(input.key(&KeyCode::KeyW), KeyState::Enter);
    assert_eq!(input.key(&KeyCode::KeyA), KeyState::Nothing);
    input.read_event(&WindowEvent::KeyboardInput {
        state: ElementState::Pressed,
        key: KeyCode::KeyW,
    });
    assert_eq!(input.key(&KeyCode::KeyW), KeyState::Hold);
}

#[test]
fn cursor_events_track_delta() {
    let mut input = InputState::new();
    input.read_event(&WindowEvent::CursorMoved { x: 10 * FX_ONE, y: 4 * FX_ONE });
    assert_eq!(input.mouse_position.x, 10 * FX_ONE);
    input.read_event(&WindowEvent::CursorMoved { x: 13 * FX_ONE, y: 3 * FX_ONE });
    assert_eq!(input.mouse_delta.x, 3 * FX_ONE);
    assert_eq!(input.mouse_delta.y, -FX_ONE);
}

#[test]
fn camera_moves_forward_along_view_axis() {
    let mut cam = Camera::new(Vec3f { x: 0, y: 0, z: 0 }, Quatf::identity(), FX_ONE, FX_ONE, FX_ONE, FX_ONE);
    cam.move_forward(2 * FX_ONE);
    // identity rotation: forward is -z
    assert_eq!(cam.transform.position.z, -2 * FX_ONE);
    assert_eq!(cam.transform.position.x, 0);
}

#[test]
fn memory_type_selection_picks_lowest_match() {
    let flags = vec![0b0001u32, 0b0110, 0b0110];
    // type 0 is masked out; type 1 is the first that fits
    assert_eq!(get_memory_type_index(0b110, 0b0110, &flags), Ok(1));
    assert_eq!(get_memory_type_index(0b110, 0b1000, &flags), Err(AllocError::NoSuitableMemoryType));
}

#[test]
fn buffer_creation_reports_no_suitable_type() {
    let mut alloc = HandleAllocator::new();
    let flags = vec![0u32];
    assert_eq!(
        create_buffer(&mut alloc, 64, 1, 1, 0b1, &flags),
        Err(AllocError::NoSuitableMemoryType)
    );
    let ok = create_buffer(&mut alloc, 64, 1, 1, 0b0, &flags).unwrap();
    assert_eq!(ok.size, 64);
    assert_ne!(ok.buffer, ok.memory);
}

#[test]
fn queue_family_selection() {
    let families = vec![
        QueueFamilyInfo { queue_flags: 0, surface_support: false },
        QueueFamilyInfo { queue_flags: 1, surface_support: false },
        QueueFamilyInfo { queue_flags: 1, surface_support: true },
    ];
    let ix = QueueFamilyIndices::get(&families).unwrap();
    assert_eq!(ix.graphics, 1);
    assert_eq!(ix.present, 2);
    let none = vec![QueueFamilyInfo { queue_flags: 0, surface_support: true }];
    assert!(QueueFamilyIndices::get(&none).is_err());
}

fn device(suitable: bool) -> PhysicalDeviceInfo {
    PhysicalDeviceInfo {
        families: vec![QueueFamilyInfo { queue_flags: 1, surface_support: true }],
        has_required_extensions: suitable,
        surface_format_count: 1,
        present_mode_count: 1,
        sampler_anisotropy: true,
    }
}

#[test]
fn first_suitable_device_wins() {
    let devices = vec![device(false), device(true), device(true)];
    assert!(matches!(pick_physical_device(&devices), Ok(1)));
    assert!(pick_physical_device(&vec![device(false)]).is_err());
}

#[test]
fn msaa_ceiling() {
    assert_eq!(get_max_msaa_samples(0x7f, 0x7f), SAMPLE_64);
    assert_eq!(get_max_msaa_samples(0x7f, SAMPLE_16 | SAMPLE_2), SAMPLE_16);
    assert_eq!(get_max_msaa_samples(SAMPLE_2, SAMPLE_1), SAMPLE_1);
}

#[test]
fn scissors_clamp_to_extent() {
    let r = clamp_scissor(&PatchRegion { x: 90, y: 10, width: 40, height: 10 }, 100, 100);
    assert_eq!(r, (90, 10, 10, 10));
    let inside = clamp_scissor(&PatchRegion { x: 5, y: 6, width: 7, height: 8 }, 100, 100);
    assert_eq!(inside, (5, 6, 7, 8));
}

#[test]
fn recorded_stream_draws_each_object_instanced() {
    let mut scene = Scene::new();
    let mut alloc = HandleAllocator::new();
    let (oid, rid) = vulcan_engine::assets::load_primitive(
        &mut scene,
        &mut alloc,
        3,
        vec![],
        vec![0, 1, 2, 0, 2, 3],
        2,
        2,
        vulcan_engine::transform::Vec4f { x: FX_ONE, y: FX_ONE, z: FX_ONE, w: FX_ONE },
        "quad".to_owned(),
        Transform::default(),
        None,
    );
    // a second object instancing the same render object
    scene
        .insert_instance(GameObject {
            name: "b".to_owned(),
            transform: Transform::default(),
            parent: None,
            children: vec![],
            render_objects: vec![rid],
        })
        .unwrap();
    let gui: Vec<GuiMesh> = vec![];
    let (keys, cmds) = record_command_buffer(&scene, &gui, 1, 2, 3, 4, 5, 640, 480, 0);
    assert_eq!(keys, vec![rid.0]);
    assert_eq!(cmds.first(), Some(&Cmd::BeginRenderPass { render_pass: 1, framebuffer: 2 }));
    assert_eq!(cmds.last(), Some(&Cmd::EndRenderPass));
    assert_eq!(cmds.iter().filter(|c| matches!(c, Cmd::NextSubpass)).count(), 2);
    let draws: Vec<&Cmd> =
        cmds.iter().filter(|c| matches!(c, Cmd::DrawIndexed { .. })).collect();
    assert_eq!(draws.len(), 1);
    assert_eq!(draws[0], &Cmd::DrawIndexed { index_count: 6, instance_count: 2 });
    // and the packed uniforms carry one matrix per instance
    let mats = pack_model_matrices(&scene, rid);
    assert_eq!(mats.len(), 2);
    assert_eq!(mats[0].m00, FX_ONE);
    let _ = oid;
}

#[test]
fn handle_allocator_issues_distinct_names() {
    let mut alloc = HandleAllocator::new();
    let a = alloc.allocate();
    let b = alloc.allocate();
    assert_ne!(a, b);
}
