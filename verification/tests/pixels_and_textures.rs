use vulcan_engine::pixels::interleave_alpha_channel;
use vulcan_engine::texture::{
    check_blit_support, mip_chain_extents, mip_level_count, transition_barrier, validate_patch,
    ImageLayout, ImageQuarantine, PatchRegion, TextureData, TextureError, ACCESS_SHADER_READ,
    ACCESS_TRANSFER_WRITE, FORMAT_FEATURE_SAMPLED_IMAGE_FILTER_LINEAR, STAGE_FRAGMENT_SHADER,
    STAGE_TRANSFER,
};

#[test]
fn interleave_round_trip() {
    // an RGB buffer of length 3n becomes 4n bytes; every 4th byte is the
    // alpha and the other three per pixel match the input in order
    let rgb: Vec<u8> = vec![10, 20, 30, 40, 50, 60];
    let rgba = interleave_alpha_channel(&rgb, 255);
    assert_eq!(rgba, vec![10, 20, 30, 255, 40, 50, 60, 255]);
    assert_eq!(rgba.len(), rgb.len() / 3 * 4);
    for p in 0..2 {
        assert_eq!(rgba[4 * p + 3], 255);
        for c in 0..3 {
            assert_eq!(rgba[4 * p + c], rgb[3 * p + c]);
        }
    }
}

#[test]
fn interleave_empty_and_custom_alpha() {
    assert_eq!(interleave_alpha_channel(&vec![], 255), Vec::<u8>::new());
    assert_eq!(interleave_alpha_channel(&vec![1, 2, 3], 7), vec![1, 2, 3, 7]);
}

#[test]
fn interleave_copies_trailing_bytes_without_alpha() {
    let rgb: Vec<u8> = vec![1, 2, 3, 4, 5];
    assert_eq!(interleave_alpha_channel(&rgb, 9), vec![1, 2, 3, 9, 4, 5]);
    assert_eq!(rgb.len() + rgb.len() / 3, 6);
}

#[test]
fn mip_levels_match_log2() {
    // floor(log2(max(w, h))) + 1
    assert_eq!(mip_level_count(256, 128), 9);
    assert_eq!(mip_level_count(2, 2), 2);
    assert_eq!(mip_level_count(1, 1), 1);
    assert_eq!(mip_level_count(1, 1024), 11);
    assert_eq!(mip_level_count(3, 1), 2);
}

#[test]
fn mip_chain_halves_and_clamps() {
    let chain = mip_chain_extents(8, 3, 4);
    assert_eq!(chain, vec![(8, 3), (4, 1), (2, 1), (1, 1)]);
}

#[test]
fn transition_barrier_upload_path() {
    let to_dst = transition_barrier(ImageLayout::Undefined, ImageLayout::TransferDst).unwrap();
    assert_eq!(to_dst.src_access, 0);
    let to_read =
        transition_barrier(ImageLayout::TransferDst, ImageLayout::ShaderReadOnly).unwrap();
    assert_eq!(to_read.src_access, ACCESS_TRANSFER_WRITE);
    assert_eq!(to_read.dst_access, ACCESS_SHADER_READ);
    assert_eq!(to_read.src_stage, STAGE_TRANSFER);
    assert_eq!(to_read.dst_stage, STAGE_FRAGMENT_SHADER);
}

#[test]
fn transition_barrier_rejects_other_pairs() {
    assert_eq!(
        transition_barrier(ImageLayout::ShaderReadOnly, ImageLayout::TransferDst),
        Err(TextureError::UnsupportedLayoutTransition)
    );
}

#[test]
fn patch_validation() {
    let atlas_w = 128;
    let atlas_h = 64;
    assert!(validate_patch(&PatchRegion { x: 0, y: 0, width: 128, height: 64 }, atlas_w, atlas_h)
        .is_ok());
    assert!(validate_patch(&PatchRegion { x: 100, y: 60, width: 28, height: 4 }, atlas_w, atlas_h)
        .is_ok());
    assert_eq!(
        validate_patch(&PatchRegion { x: 100, y: 60, width: 29, height: 4 }, atlas_w, atlas_h),
        Err(TextureError::PatchOutOfBounds)
    );
}

fn dummy_texture(tag: u64) -> TextureData {
    TextureData { mip_levels: 1, image: tag, image_memory: tag, image_view: tag, sampler: tag }
}

#[test]
fn quarantine_holds_images_for_n_frames() {
    // an image freed by the overlay is destroyed only after as many
    // frames as the swapchain has images
    let mut q = ImageQuarantine::new();
    q.retire(dummy_texture(1), 3);
    assert!(q.tick().is_empty());
    assert!(q.tick().is_empty());
    let released = q.tick();
    assert_eq!(released.len(), 1);
    assert_eq!(released[0].image, 1);
    assert!(q.tick().is_empty());
}

#[test]
fn quarantine_releases_in_retirement_order() {
    let mut q = ImageQuarantine::new();
    q.retire(dummy_texture(1), 1);
    q.retire(dummy_texture(2), 2);
    let first = q.tick();
    assert_eq!(first.len(), 1);
    assert_eq!(first[0].image, 1);
    let second = q.tick();
    assert_eq!(second.len(), 1);
    assert_eq!(second[0].image, 2);
}

#[test]
fn blit_support_requires_linear_filtering() {
    assert!(check_blit_support(FORMAT_FEATURE_SAMPLED_IMAGE_FILTER_LINEAR | 0x1).is_ok());
    assert_eq!(check_blit_support(0x1), Err(TextureError::UnsupportedBlitFormat));
}
