use vulcan_engine::allocator::HandleAllocator;
use vulcan_engine::descriptor::{
    gui_descriptor_set_layout, pbr_descriptor_set_layout, skybox_descriptor_set_layout,
    DescriptorKind, GUI_SUBPASS, PBR_SUBPASS, SKYBOX_SUBPASS,
};
use vulcan_engine::geometry::{update_vertex_data, UpdateAction, VertexData};
use vulcan_engine::gui::GuiAtlas;
use vulcan_engine::texture::{ImageQuarantine, TextureData};

fn texture(tag: u64) -> TextureData {
    TextureData { mip_levels: 1, image: tag, image_memory: tag, image_view: tag, sampler: tag }
}

#[test]
fn freed_atlas_image_survives_quarantine_frames() {
    let mut atlas = GuiAtlas::new();
    let mut quarantine = ImageQuarantine::new();
    let swapchain_images = 3;
    atlas.apply_texture_set(1, texture(11), &mut quarantine, swapchain_images);
    assert!(atlas.free_image(1, &mut quarantine, swapchain_images));
    // the freed image is held for one frame per swapchain image
    assert!(quarantine.tick().is_empty());
    assert!(quarantine.tick().is_empty());
    let released = quarantine.tick();
    assert_eq!(released.len(), 1);
    assert_eq!(released[0].image, 11);
}

#[test]
fn replacing_an_atlas_entry_retires_the_old_image() {
    let mut atlas = GuiAtlas::new();
    let mut quarantine = ImageQuarantine::new();
    atlas.apply_texture_set(5, texture(50), &mut quarantine, 2);
    atlas.apply_texture_set(5, texture(51), &mut quarantine, 2);
    // the first image was replaced, so it sits in quarantine
    assert!(quarantine.tick().is_empty());
    let released = quarantine.tick();
    assert_eq!(released.len(), 1);
    assert_eq!(released[0].image, 50);
    assert!(!atlas.free_image(9, &mut quarantine, 2));
}

fn gui_vertex_data() -> VertexData<u32> {
    VertexData {
        vertices: vec![1, 2, 3],
        indices: vec![0, 1, 2],
        vertex_buffer: 7,
        vertex_buffer_memory: 8,
        index_buffer: 9,
        index_buffer_memory: 10,
        vertex_capacity: 4,
        index_capacity: 6,
        persistent_mapping: true,
    }
}

#[test]
fn geometry_update_within_capacity_keeps_buffers() {
    let mut vd = gui_vertex_data();
    let mut alloc = HandleAllocator::new();
    let action = update_vertex_data(&mut vd, &mut alloc, vec![4, 5, 6, 7], vec![0, 1, 2, 2, 1, 3]);
    assert_eq!(action, UpdateAction::Reuse);
    assert_eq!(vd.vertex_buffer, 7);
    assert_eq!(vd.index_buffer, 9);
    assert!(vd.persistent_mapping);
    assert_eq!(vd.vertices, vec![4, 5, 6, 7]);
}

#[test]
fn geometry_update_beyond_capacity_reallocates() {
    let mut vd = gui_vertex_data();
    let mut alloc = HandleAllocator::new();
    let action = update_vertex_data(&mut vd, &mut alloc, vec![0; 5], vec![0; 6]);
    assert_eq!(action, UpdateAction::Reallocate);
    assert_ne!(vd.vertex_buffer, 7);
    assert_eq!(vd.vertex_capacity, 5);
    assert_eq!(vd.index_capacity, 6);
}

#[test]
fn descriptor_layouts_match_subpasses() {
    let pbr = pbr_descriptor_set_layout();
    assert_eq!(pbr.len(), 4);
    assert_eq!(pbr[3].kind, DescriptorKind::CombinedImageSampler);
    assert!(pbr[3].fragment_only);
    assert_eq!(skybox_descriptor_set_layout().len(), 2);
    assert_eq!(gui_descriptor_set_layout().len(), 2);
    assert_eq!((GUI_SUBPASS, PBR_SUBPASS, SKYBOX_SUBPASS), (0, 1, 2));
}
