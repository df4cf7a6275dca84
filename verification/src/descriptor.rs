//! The descriptor set layouts of the three subpasses, as data: which
//! binding slots each pipeline reads and of what kind. The driver-side
//! layout objects are created outside from exactly these tables.

use vstd::prelude::*;

verus! {

/// What a descriptor binding holds.
#[derive(Clone, Copy, Debug, PartialEq, Eq, Structural)]
pub enum DescriptorKind {
    UniformBuffer,
    CombinedImageSampler,
}

/// One binding slot of a descriptor set layout.
#[derive(Clone, Copy, Debug, PartialEq, Eq, Structural)]
pub struct Binding {
    pub binding: u32,
    pub kind: DescriptorKind,
    pub fragment_only: bool,
}

/// The opaque-geometry pass layout: light, camera and per-object
/// uniforms, then the base color sampler.
pub fn pbr_descriptor_set_layout() -> (r: Vec<Binding>)
    ensures
        r@ =~= seq![
            Binding { binding: 0, kind: DescriptorKind::UniformBuffer, fragment_only: false },
            Binding { binding: 1, kind: DescriptorKind::UniformBuffer, fragment_only: false },
            Binding { binding: 2, kind: DescriptorKind::UniformBuffer, fragment_only: false },
            Binding { binding: 3, kind: DescriptorKind::CombinedImageSampler, fragment_only: true },
        ],
{
    let mut r: Vec<Binding> = Vec::new();
    r.push(Binding { binding: 0, kind: DescriptorKind::UniformBuffer, fragment_only: false });
    r.push(Binding { binding: 1, kind: DescriptorKind::UniformBuffer, fragment_only: false });
    r.push(Binding { binding: 2, kind: DescriptorKind::UniformBuffer, fragment_only: false });
    r.push(
        Binding { binding: 3, kind: DescriptorKind::CombinedImageSampler, fragment_only: true },
    );
    r
}

/// The sky pass layout: the camera uniform and the cubemap sampler.
pub fn skybox_descriptor_set_layout() -> (r: Vec<Binding>)
    ensures
        r@ =~= seq![
            Binding { binding: 0, kind: DescriptorKind::UniformBuffer, fragment_only: false },
            Binding { binding: 1, kind: DescriptorKind::CombinedImageSampler, fragment_only: true },
        ],
{
    let mut r: Vec<Binding> = Vec::new();
    r.push(Binding { binding: 0, kind: DescriptorKind::UniformBuffer, fragment_only: false });
    r.push(
        Binding { binding: 1, kind: DescriptorKind::CombinedImageSampler, fragment_only: true },
    );
    r
}

/// The overlay pass layout: the screen-dimension uniform and the atlas
/// sampler.
pub fn gui_descriptor_set_layout() -> (r: Vec<Binding>)
    ensures
        r@ =~= seq![
            Binding { binding: 0, kind: DescriptorKind::UniformBuffer, fragment_only: false },
            Binding { binding: 1, kind: DescriptorKind::CombinedImageSampler, fragment_only: true },
        ],
{
    let mut r: Vec<Binding> = Vec::new();
    r.push(Binding { binding: 0, kind: DescriptorKind::UniformBuffer, fragment_only: false });
    r.push(
        Binding { binding: 1, kind: DescriptorKind::CombinedImageSampler, fragment_only: true },
    );
    r
}

/// The subpass each pipeline draws in: overlay first, then opaque
/// geometry, then the sky behind whatever depth remains.
pub const GUI_SUBPASS: u32 = 0;

pub const PBR_SUBPASS: u32 = 1;

pub const SKYBOX_SUBPASS: u32 = 2;

} // verus!
