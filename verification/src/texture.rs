//! Texture bookkeeping: mip chain arithmetic, decoded-image handling,
//! layout transition planning, and the quarantine that delays destruction
//! of images an in-flight frame may still sample.

use vstd::prelude::*;

verus! {

/// floor(log2(n)) for n >= 1.
pub open spec fn log2_floor(n: nat) -> nat
    decreases n,
{
    if n < 2 {
        0
    } else {
        1 + log2_floor(n / 2)
    }
}

/// The larger of two numbers.
pub open spec fn max_nat(a: nat, b: nat) -> nat {
    if a >= b {
        a
    } else {
        b
    }
}

/// A sampled GPU image with its views; handles are opaque names issued
/// when the image was created.
#[derive(Clone, Copy, Debug, PartialEq, Eq, Structural)]
pub struct TextureData {
    pub mip_levels: u32,
    pub image: u64,
    pub image_memory: u64,
    pub image_view: u64,
    pub sampler: u64,
}

/// The logarithm grows strictly slower than its argument.
pub proof fn lemma_log2_floor_lt(n: nat)
    requires
        n >= 1,
    ensures
        log2_floor(n) < n,
    decreases n,
{
    if n >= 2 {
        lemma_log2_floor_lt(n / 2);
    }
}

/// The number of mip levels generated for a texture:
/// floor(log2(max(width, height))) + 1.
pub fn mip_level_count(width: u32, height: u32) -> (r: u32)
    requires
        width >= 1,
        height >= 1,
    ensures
        r == log2_floor(max_nat(width as nat, height as nat)) + 1,
{
    let ghost top = max_nat(width as nat, height as nat);
    proof {
        lemma_log2_floor_lt(top);
    }
    let mut m: u32 = if width >= height {
        width
    } else {
        height
    };
    let mut levels: usize = 1;
    while m >= 2
        invariant
            m >= 1,
            levels >= 1,
            top == max_nat(width as nat, height as nat),
            log2_floor(top) < top,
            top <= u32::MAX,
            levels + log2_floor(m as nat) == 1 + log2_floor(top),
        decreases m,
    {
        m = m / 2;
        levels = levels + 1;
    }
    levels as u32
}

/// The edge length of mip level `i` for a base length `d`: halved per
/// level, never below 1.
pub open spec fn mip_dim(d: nat, i: nat) -> nat
    decreases i,
{
    if i == 0 {
        d
    } else {
        let prev = mip_dim(d, (i - 1) as nat);
        if prev / 2 >= 1 {
            prev / 2
        } else {
            1
        }
    }
}

/// The extents of every level of a mip chain, in order: entry `i` is the
/// size of level `i`. The blit that fills level `i` reads entry `i - 1`
/// and writes entry `i`.
pub fn mip_chain_extents(width: u32, height: u32, levels: u32) -> (r: Vec<(u32, u32)>)
    requires
        width >= 1,
        height >= 1,
        levels >= 1,
    ensures
        r@.len() == levels,
        forall|i: int|
            0 <= i < levels ==> (#[trigger] r@[i]).0 == mip_dim(width as nat, i as nat) && r@[
                i
            ].1 == mip_dim(height as nat, i as nat),
    {
    let mut r: Vec<(u32, u32)> = Vec::new();
    let mut w: u32 = width;
    let mut h: u32 = height;
    let mut i: u32 = 0;
    r.push((w, h));
    i = 1;
    while i < levels
        invariant
            1 <= i <= levels,
            r@.len() == i,
            w == mip_dim(width as nat, (i - 1) as nat),
            h == mip_dim(height as nat, (i - 1) as nat),
            w >= 1,
            h >= 1,
            forall|j: int|
                0 <= j < i ==> (#[trigger] r@[j]).0 == mip_dim(width as nat, j as nat) && r@[
                    j
                ].1 == mip_dim(height as nat, j as nat),
        decreases levels - i,
    {
        w = if w > 1 {
            w / 2
        } else {
            1
        };
        h = if h > 1 {
            h / 2
        } else {
            1
        };
        r.push((w, h));
        i = i + 1;
    }
    r
}

/// Image layouts the upload path moves an image through.
#[derive(Clone, Copy, Debug, PartialEq, Eq, Structural)]
pub enum ImageLayout {
    Undefined,
    TransferDst,
    TransferSrc,
    ShaderReadOnly,
    DepthStencilAttachment,
}

/// The access masks and pipeline stages a layout transition waits on and
/// makes visible, as the graphics API's bit flags.
#[derive(Clone, Copy, Debug, PartialEq, Eq, Structural)]
pub struct BarrierPlan {
    pub src_access: u32,
    pub dst_access: u32,
    pub src_stage: u32,
    pub dst_stage: u32,
}

pub const ACCESS_TRANSFER_WRITE: u32 = 0x1000;

pub const ACCESS_SHADER_READ: u32 = 0x20;

pub const ACCESS_DEPTH_STENCIL_READ: u32 = 0x200;

pub const ACCESS_DEPTH_STENCIL_WRITE: u32 = 0x400;

pub const STAGE_TOP_OF_PIPE: u32 = 0x1;

pub const STAGE_TRANSFER: u32 = 0x1000;

pub const STAGE_FRAGMENT_SHADER: u32 = 0x80;

pub const STAGE_EARLY_FRAGMENT_TESTS: u32 = 0x100;

/// Errors of the texture path.
#[derive(Clone, Copy, Debug, PartialEq, Eq, Structural)]
pub enum TextureError {
    UnsupportedLayoutTransition,
    UnsupportedBlitFormat,
    FaceDecodeFailed,
    FaceDimensionMismatch,
    PatchOutOfBounds,
}

/// The barrier a layout transition needs. Only the two transitions of
/// the upload path are supported; any other pair is rejected.
pub fn transition_barrier(old_layout: ImageLayout, new_layout: ImageLayout) -> (r: Result<
    BarrierPlan,
    TextureError,
>)
    ensures
        old_layout is Undefined && new_layout is TransferDst ==> r == Ok::<_, TextureError>(
            BarrierPlan {
                src_access: 0,
                dst_access: ACCESS_DEPTH_STENCIL_READ | ACCESS_DEPTH_STENCIL_WRITE,
                src_stage: STAGE_TOP_OF_PIPE,
                dst_stage: STAGE_EARLY_FRAGMENT_TESTS,
            },
        ),
        old_layout is TransferDst && new_layout is ShaderReadOnly ==> r == Ok::<_, TextureError>(
            BarrierPlan {
                src_access: ACCESS_TRANSFER_WRITE,
                dst_access: ACCESS_SHADER_READ,
                src_stage: STAGE_TRANSFER,
                dst_stage: STAGE_FRAGMENT_SHADER,
            },
        ),
        !(old_layout is Undefined && new_layout is TransferDst) && !(old_layout is TransferDst
            && new_layout is ShaderReadOnly) ==> r == Err::<BarrierPlan, _>(
            TextureError::UnsupportedLayoutTransition,
        ),
{
    match (old_layout, new_layout) {
        (ImageLayout::Undefined, ImageLayout::TransferDst) => Ok(
            BarrierPlan {
                src_access: 0,
                dst_access: ACCESS_DEPTH_STENCIL_READ | ACCESS_DEPTH_STENCIL_WRITE,
                src_stage: STAGE_TOP_OF_PIPE,
                dst_stage: STAGE_EARLY_FRAGMENT_TESTS,
            },
        ),
        (ImageLayout::TransferDst, ImageLayout::ShaderReadOnly) => Ok(
            BarrierPlan {
                src_access: ACCESS_TRANSFER_WRITE,
                dst_access: ACCESS_SHADER_READ,
                src_stage: STAGE_TRANSFER,
                dst_stage: STAGE_FRAGMENT_SHADER,
            },
        ),
        _ => Err(TextureError::UnsupportedLayoutTransition),
    }
}

/// The format feature bit for linear-filtered sampling, which mip
/// generation's blits require.
pub const FORMAT_FEATURE_SAMPLED_IMAGE_FILTER_LINEAR: u32 = 0x1000;

/// Mip generation blits each level from the one above with linear
/// filtering; a format whose optimal tiling features lack linear
/// filtering cannot take that path and is rejected.
pub fn check_blit_support(optimal_tiling_features: u32) -> (r: Result<(), TextureError>)
    ensures
        r is Ok <==> optimal_tiling_features & FORMAT_FEATURE_SAMPLED_IMAGE_FILTER_LINEAR != 0,
        r is Err ==> r == Err::<(), _>(TextureError::UnsupportedBlitFormat),
{
    if optimal_tiling_features & FORMAT_FEATURE_SAMPLED_IMAGE_FILTER_LINEAR != 0 {
        Ok(())
    } else {
        Err(TextureError::UnsupportedBlitFormat)
    }
}

/// A region of an atlas texture to overwrite in place. Patching never
/// touches the sampler or the view.
#[derive(Clone, Copy, Debug, PartialEq, Eq, Structural)]
pub struct PatchRegion {
    pub x: u32,
    pub y: u32,
    pub width: u32,
    pub height: u32,
}

/// Checks that a patch fits inside an atlas of the given size; a patch
/// that fits is applied to the existing image, so its view and sampler
/// survive.
pub fn validate_patch(region: &PatchRegion, atlas_width: u32, atlas_height: u32) -> (r: Result<
    (),
    TextureError,
>)
    ensures
        r is Ok <==> region.x + region.width <= atlas_width && region.y + region.height
            <= atlas_height,
        r is Err ==> r == Err::<(), _>(TextureError::PatchOutOfBounds),
{
    if region.width <= atlas_width && region.x <= atlas_width - region.width && region.height
        <= atlas_height && region.y <= atlas_height - region.height {
        Ok(())
    } else {
        Err(TextureError::PatchOutOfBounds)
    }
}

/// An image pulled out of service, waiting until no in-flight frame can
/// still sample it.
pub struct RetiredImage {
    pub texture: TextureData,
    pub frames_left: u32,
}

/// The images freed by the overlay but kept alive for a fixed number of
/// further frames. An image retired with `n` frames survives `n - 1`
/// ticks and is handed out for destruction on the `n`-th.
pub struct ImageQuarantine {
    pub entries: Vec<RetiredImage>,
}

/// The entries that survive one tick, each with one frame fewer left.
pub open spec fn surviving(s: Seq<RetiredImage>) -> Seq<RetiredImage>
    decreases s.len(),
{
    if s.len() == 0 {
        Seq::empty()
    } else {
        let rest = surviving(s.drop_last());
        let e = s.last();
        if e.frames_left > 1 {
            rest.push(RetiredImage { frames_left: (e.frames_left - 1) as u32, ..e })
        } else {
            rest
        }
    }
}

/// The textures released by one tick: those that were on their last
/// frame.
pub open spec fn released(s: Seq<RetiredImage>) -> Seq<TextureData>
    decreases s.len(),
{
    if s.len() == 0 {
        Seq::empty()
    } else {
        let rest = released(s.drop_last());
        let e = s.last();
        if e.frames_left > 1 {
            rest
        } else {
            rest.push(e.texture)
        }
    }
}

impl ImageQuarantine {
    pub fn new() -> (r: ImageQuarantine)
        ensures
            r.entries@.len() == 0,
    {
        ImageQuarantine { entries: Vec::new() }
    }

    /// Takes a freed image into quarantine for `frames` more frames.
    pub fn retire(&mut self, texture: TextureData, frames: u32)
        ensures
            final(self).entries@ == old(self).entries@.push(
                RetiredImage { texture, frames_left: frames },
            ),
    {
        self.entries.push(RetiredImage { texture, frames_left: frames });
    }

    /// Advances the quarantine by one frame: every entry loses one frame,
    /// and those whose time is up are removed and returned for
    /// destruction. An image retired with `n > 1` frames is never
    /// returned by this tick.
    pub fn tick(&mut self) -> (r: Vec<TextureData>)
        ensures
            final(self).entries@ == surviving(old(self).entries@),
            r@ == released(old(self).entries@),
    {
        let mut kept: Vec<RetiredImage> = Vec::new();
        let mut out: Vec<TextureData> = Vec::new();
        let n = self.entries.len();
        let mut i: usize = 0;
        while i < n
            invariant
                i <= n,
                n == self.entries@.len(),
                kept@ == surviving(self.entries@.subrange(0, i as int)),
                out@ == released(self.entries@.subrange(0, i as int)),
            decreases n - i,
        {
            let e = &self.entries[i];
            proof {
                assert(self.entries@.subrange(0, i + 1).drop_last() =~= self.entries@.subrange(
                    0,
                    i as int,
                ));
                assert(self.entries@.subrange(0, i + 1).last() == self.entries@[i as int]);
            }
            if e.frames_left > 1 {
                kept.push(RetiredImage { texture: e.texture, frames_left: e.frames_left - 1 });
            } else {
                out.push(e.texture);
            }
            i = i + 1;
        }
        proof {
            assert(self.entries@.subrange(0, n as int) =~= self.entries@);
        }
        self.entries = kept;
        out
    }
}

} // verus!
