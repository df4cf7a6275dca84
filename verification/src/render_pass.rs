//! The render pass as data: the three attachments, the three subpasses
//! sharing them, and the dependencies that serialize attachment writes
//! across the overlay → opaque → sky chain. The driver-side render pass
//! object is created outside from exactly this description.

use crate::texture::{ACCESS_DEPTH_STENCIL_WRITE, STAGE_EARLY_FRAGMENT_TESTS};
use vstd::prelude::*;

verus! {

/// The color-attachment-output pipeline stage bit.
pub const STAGE_COLOR_ATTACHMENT_OUTPUT: u32 = 0x400;

/// The color-attachment-write access bit.
pub const ACCESS_COLOR_ATTACHMENT_WRITE: u32 = 0x100;

/// The producer or consumer outside the render pass in a dependency.
pub const SUBPASS_EXTERNAL: u32 = 0xffff_ffff;

/// Which negotiated format an attachment carries.
#[derive(Clone, Copy, Debug, PartialEq, Eq, Structural)]
pub enum AttachmentFormat {
    SwapchainColor,
    Depth,
}

/// What happens to an attachment's contents at the start of the pass.
#[derive(Clone, Copy, Debug, PartialEq, Eq, Structural)]
pub enum LoadOp {
    Clear,
    DontCare,
}

/// What happens to an attachment's contents at the end of the pass.
#[derive(Clone, Copy, Debug, PartialEq, Eq, Structural)]
pub enum StoreOp {
    Store,
    DontCare,
}

/// The image layouts an attachment moves between.
#[derive(Clone, Copy, Debug, PartialEq, Eq, Structural)]
pub enum AttachmentLayout {
    Undefined,
    ColorAttachment,
    DepthStencilAttachment,
    PresentSrc,
}

/// One attachment of the render pass.
#[derive(Clone, Copy, Debug, PartialEq, Eq, Structural)]
pub struct AttachmentDesc {
    pub format: AttachmentFormat,
    pub samples: u32,
    pub load_op: LoadOp,
    pub store_op: StoreOp,
    pub initial_layout: AttachmentLayout,
    pub final_layout: AttachmentLayout,
}

/// One subpass: the attachment indices it draws to, reads depth from,
/// and resolves into.
#[derive(Clone, Copy, Debug, PartialEq, Eq, Structural)]
pub struct SubpassDesc {
    pub color_attachment: u32,
    pub depth_attachment: u32,
    pub resolve_attachment: u32,
}

/// One execution dependency between subpasses.
#[derive(Clone, Copy, Debug, PartialEq, Eq, Structural)]
pub struct SubpassDep {
    pub src_subpass: u32,
    pub dst_subpass: u32,
    pub src_stage_mask: u32,
    pub dst_stage_mask: u32,
    pub src_access_mask: u32,
    pub dst_access_mask: u32,
}

/// The multisampled color attachment: cleared, kept, left in color
/// layout for the next consumer.
pub open spec fn color_attachment_spec(msaa_samples: u32) -> AttachmentDesc {
    AttachmentDesc {
        format: AttachmentFormat::SwapchainColor,
        samples: msaa_samples,
        load_op: LoadOp::Clear,
        store_op: StoreOp::Store,
        initial_layout: AttachmentLayout::Undefined,
        final_layout: AttachmentLayout::ColorAttachment,
    }
}

/// The multisampled depth attachment.
pub open spec fn depth_attachment_spec(msaa_samples: u32) -> AttachmentDesc {
    AttachmentDesc {
        format: AttachmentFormat::Depth,
        samples: msaa_samples,
        load_op: LoadOp::Clear,
        store_op: StoreOp::Store,
        initial_layout: AttachmentLayout::Undefined,
        final_layout: AttachmentLayout::DepthStencilAttachment,
    }
}

/// The single-sample resolve target, presented at the end of the pass.
pub open spec fn resolve_attachment_spec() -> AttachmentDesc {
    AttachmentDesc {
        format: AttachmentFormat::SwapchainColor,
        samples: 1,
        load_op: LoadOp::DontCare,
        store_op: StoreOp::Store,
        initial_layout: AttachmentLayout::Undefined,
        final_layout: AttachmentLayout::PresentSrc,
    }
}

/// Every subpass draws to attachment 0, tests against attachment 1 and
/// resolves into attachment 2.
pub open spec fn shared_subpass_spec() -> SubpassDesc {
    SubpassDesc { color_attachment: 0, depth_attachment: 1, resolve_attachment: 2 }
}

/// The dependency serializing color and depth writes from `src` to
/// `dst`; both ends wait at the color-output and early-fragment-test
/// stages, and the depth write is made visible only into the opaque
/// subpass.
pub open spec fn chain_dep_spec(src: u32, dst: u32, depth_write: bool) -> SubpassDep {
    SubpassDep {
        src_subpass: src,
        dst_subpass: dst,
        src_stage_mask: STAGE_COLOR_ATTACHMENT_OUTPUT | STAGE_EARLY_FRAGMENT_TESTS,
        dst_stage_mask: STAGE_COLOR_ATTACHMENT_OUTPUT | STAGE_EARLY_FRAGMENT_TESTS,
        src_access_mask: 0,
        dst_access_mask: if depth_write {
            ACCESS_COLOR_ATTACHMENT_WRITE | ACCESS_DEPTH_STENCIL_WRITE
        } else {
            ACCESS_COLOR_ATTACHMENT_WRITE
        },
    }
}

/// The whole render pass for a device with the given multisample count:
/// color, depth and resolve attachments; the overlay, opaque and sky
/// subpasses sharing them; and the dependency chain external → overlay →
/// opaque → sky.
pub fn render_pass_description(msaa_samples: u32) -> (r: (
    Vec<AttachmentDesc>,
    Vec<SubpassDesc>,
    Vec<SubpassDep>,
))
    ensures
        r.0@ =~= seq![
            color_attachment_spec(msaa_samples),
            depth_attachment_spec(msaa_samples),
            resolve_attachment_spec(),
        ],
        r.1@ =~= seq![shared_subpass_spec(), shared_subpass_spec(), shared_subpass_spec()],
        r.2@ =~= seq![
            chain_dep_spec(SUBPASS_EXTERNAL, 0, false),
            chain_dep_spec(0, 1, true),
            chain_dep_spec(1, 2, false),
        ],
{
    let mut attachments: Vec<AttachmentDesc> = Vec::new();
    attachments.push(
        AttachmentDesc {
            format: AttachmentFormat::SwapchainColor,
            samples: msaa_samples,
            load_op: LoadOp::Clear,
            store_op: StoreOp::Store,
            initial_layout: AttachmentLayout::Undefined,
            final_layout: AttachmentLayout::ColorAttachment,
        },
    );
    attachments.push(
        AttachmentDesc {
            format: AttachmentFormat::Depth,
            samples: msaa_samples,
            load_op: LoadOp::Clear,
            store_op: StoreOp::Store,
            initial_layout: AttachmentLayout::Undefined,
            final_layout: AttachmentLayout::DepthStencilAttachment,
        },
    );
    attachments.push(
        AttachmentDesc {
            format: AttachmentFormat::SwapchainColor,
            samples: 1,
            load_op: LoadOp::DontCare,
            store_op: StoreOp::Store,
            initial_layout: AttachmentLayout::Undefined,
            final_layout: AttachmentLayout::PresentSrc,
        },
    );
    let mut subpasses: Vec<SubpassDesc> = Vec::new();
    subpasses.push(SubpassDesc { color_attachment: 0, depth_attachment: 1, resolve_attachment: 2 });
    subpasses.push(SubpassDesc { color_attachment: 0, depth_attachment: 1, resolve_attachment: 2 });
    subpasses.push(SubpassDesc { color_attachment: 0, depth_attachment: 1, resolve_attachment: 2 });
    let mut dependencies: Vec<SubpassDep> = Vec::new();
    dependencies.push(make_chain_dep(SUBPASS_EXTERNAL, 0, false));
    dependencies.push(make_chain_dep(0, 1, true));
    dependencies.push(make_chain_dep(1, 2, false));
    (attachments, subpasses, dependencies)
}

fn make_chain_dep(src: u32, dst: u32, depth_write: bool) -> (r: SubpassDep)
    ensures
        r == chain_dep_spec(src, dst, depth_write),
{
    SubpassDep {
        src_subpass: src,
        dst_subpass: dst,
        src_stage_mask: STAGE_COLOR_ATTACHMENT_OUTPUT | STAGE_EARLY_FRAGMENT_TESTS,
        dst_stage_mask: STAGE_COLOR_ATTACHMENT_OUTPUT | STAGE_EARLY_FRAGMENT_TESTS,
        src_access_mask: 0,
        dst_access_mask: if depth_write {
            ACCESS_COLOR_ATTACHMENT_WRITE | ACCESS_DEPTH_STENCIL_WRITE
        } else {
            ACCESS_COLOR_ATTACHMENT_WRITE
        },
    }
}

} // verus!
