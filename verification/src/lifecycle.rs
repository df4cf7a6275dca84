//! The per-frame state machine: fence waits, image acquisition outcomes,
//! submission and presentation, swapchain recreation triggers, and the
//! frame-in-flight index that cycles modulo the frame count. The
//! frame-in-flight index (which picks semaphores and fences) is distinct
//! from the swapchain image index (which picks framebuffers and command
//! buffers); this module keeps the two apart by type and by contract.

use vstd::arithmetic::div_mod::{lemma_mod_multiples_vanish, lemma_small_mod};
use vstd::prelude::*;

verus! {

/// How many frames the CPU may record ahead of the GPU.
pub const MAX_FRAMES_IN_FLIGHT: usize = 3;

/// The error code reported when the driver hands back an image index
/// outside the swapchain.
pub const ERROR_UNKNOWN: i32 = -13;

/// What acquiring the next swapchain image reported.
#[derive(Clone, Copy, Debug, PartialEq, Eq, Structural)]
pub enum AcquireResult {
    Success { image_index: u32, suboptimal: bool },
    OutOfDate,
    Error { code: i32 },
}

/// What presenting the finished image reported.
#[derive(Clone, Copy, Debug, PartialEq, Eq, Structural)]
pub enum PresentResult {
    Success { suboptimal: bool },
    OutOfDate,
    Error { code: i32 },
}

/// What the renderer must do after acquisition.
#[derive(Clone, Copy, Debug, PartialEq, Eq, Structural)]
pub enum FrameAction {
    /// Tear down and rebuild the swapchain; this frame draws nothing.
    Recreate,
    /// Log and skip this frame.
    Abandon { code: i32 },
    /// Record and submit for this image, first waiting on the fence of
    /// the frame slot that still owns the image, if any.
    Draw { image_index: usize, wait_fence_of_frame: Option<usize> },
}

/// What the renderer must do after presentation.
#[derive(Clone, Copy, Debug, PartialEq, Eq, Structural)]
pub enum FrameEnd {
    Recreate,
    Continue,
    Abandon { code: i32 },
}

/// The frame slot that follows `f` when cycling over `n` slots.
pub open spec fn next_frame(f: nat, n: nat) -> nat
    recommends
        n >= 1,
{
    (((f + 1) as int) % (n as int)) as nat
}

/// The frame slot reached from `f` after `k` successful frames.
pub open spec fn frame_after(f: nat, n: nat, k: nat) -> nat
    decreases k,
{
    if k == 0 {
        f
    } else {
        next_frame(frame_after(f, n, (k - 1) as nat), n)
    }
}

/// The per-frame bookkeeping: the cycling frame-in-flight index, the
/// resize flag consumed at the end of a frame, which frame slot's fence
/// last claimed each swapchain image, and the configurable policy for
/// tolerating a suboptimal-but-presentable acquisition.
pub struct FrameLifecycle {
    pub frame: usize,
    pub max_frames: usize,
    pub resized: bool,
    pub images_in_flight: Vec<Option<usize>>,
    pub tolerate_suboptimal_acquire: bool,
}

impl FrameLifecycle {
    /// The frame index always lies below the frame count.
    pub open spec fn wf(self) -> bool {
        self.max_frames >= 1 && self.frame < self.max_frames
    }

    pub fn new(max_frames: usize, image_count: usize, tolerate_suboptimal_acquire: bool) -> (r:
        FrameLifecycle)
        requires
            max_frames >= 1,
        ensures
            r.wf(),
            r.frame == 0,
            r.max_frames == max_frames,
            !r.resized,
            r.tolerate_suboptimal_acquire == tolerate_suboptimal_acquire,
            r.images_in_flight@.len() == image_count,
            forall|i: int| 0 <= i < image_count ==> r.images_in_flight@[i] is None,
    {
        let mut images: Vec<Option<usize>> = Vec::new();
        let mut i: usize = 0;
        while i < image_count
            invariant
                i <= image_count,
                images@.len() == i,
                forall|j: int| 0 <= j < i ==> images@[j] is None,
            decreases image_count - i,
        {
            images.push(None);
            i = i + 1;
        }
        FrameLifecycle {
            frame: 0,
            max_frames,
            resized: false,
            images_in_flight: images,
            tolerate_suboptimal_acquire,
        }
    }

    /// Marks that the window was resized; the next presented frame will
    /// trigger recreation.
    pub fn set_resized(&mut self)
        ensures
            *final(self) == (FrameLifecycle { resized: true, ..*old(self) }),
    {
        self.resized = true;
    }

    /// Resizes the image-ownership table for a rebuilt swapchain and
    /// forgets all previous claims.
    pub fn configure_images(&mut self, image_count: usize)
        ensures
            final(self).images_in_flight@.len() == image_count,
            forall|i: int| 0 <= i < image_count ==> final(self).images_in_flight@[i] is None,
            final(self).frame == old(self).frame,
            final(self).max_frames == old(self).max_frames,
            final(self).resized == old(self).resized,
            final(self).tolerate_suboptimal_acquire == old(self).tolerate_suboptimal_acquire,
    {
        let mut images: Vec<Option<usize>> = Vec::new();
        let mut i: usize = 0;
        while i < image_count
            invariant
                i <= image_count,
                images@.len() == i,
                forall|j: int| 0 <= j < i ==> images@[j] is None,
            decreases image_count - i,
        {
            images.push(None);
            i = i + 1;
        }
        self.images_in_flight = images;
    }

    /// Decides what to do with an acquisition outcome. Out-of-date
    /// surfaces always recreate; a suboptimal surface recreates unless
    /// the policy tolerates it; any other error abandons the frame. On
    /// success the returned image may still be owned by an earlier frame
    /// slot, whose fence the caller must wait on before reuse, and the
    /// image is claimed for the current frame slot.
    pub fn begin_frame(&mut self, acquire: AcquireResult) -> (r: FrameAction)
        requires
            old(self).wf(),
        ensures
            final(self).wf(),
            final(self).frame == old(self).frame,
            final(self).max_frames == old(self).max_frames,
            final(self).resized == old(self).resized,
            final(self).tolerate_suboptimal_acquire == old(self).tolerate_suboptimal_acquire,
            match acquire {
                AcquireResult::OutOfDate => r == FrameAction::Recreate && *final(self)
                    == *old(self),
                AcquireResult::Error { code } => r == (FrameAction::Abandon { code })
                    && *final(self) == *old(self),
                AcquireResult::Success { image_index, suboptimal } => {
                    if suboptimal && !old(self).tolerate_suboptimal_acquire {
                        r == FrameAction::Recreate && *final(self) == *old(self)
                    } else if image_index < old(self).images_in_flight@.len() {
                        r == (FrameAction::Draw {
                            image_index: image_index as usize,
                            wait_fence_of_frame: old(self).images_in_flight@[image_index as int],
                        }) && final(self).images_in_flight@ == old(self).images_in_flight@.update(
                            image_index as int,
                            Some(old(self).frame),
                        )
                    } else {
                        r == (FrameAction::Abandon { code: ERROR_UNKNOWN }) && *final(self)
                            == *old(self)
                    }
                },
            },
    {
        match acquire {
            AcquireResult::OutOfDate => FrameAction::Recreate,
            AcquireResult::Error { code } => FrameAction::Abandon { code },
            AcquireResult::Success { image_index, suboptimal } => {
                if suboptimal && !self.tolerate_suboptimal_acquire {
                    FrameAction::Recreate
                } else if (image_index as usize) < self.images_in_flight.len() {
                    let idx = image_index as usize;
                    let prior = self.images_in_flight[idx];
                    self.images_in_flight[idx] = Some(self.frame);
                    FrameAction::Draw { image_index: idx, wait_fence_of_frame: prior }
                } else {
                    FrameAction::Abandon { code: ERROR_UNKNOWN }
                }
            },
        }
    }

    /// Finishes a submitted frame with its presentation outcome. A
    /// suboptimal or out-of-date present, or a pending resize, asks for
    /// recreation and clears the resize flag; either way the frame slot
    /// advances cyclically. A presentation error abandons the frame
    /// without advancing.
    pub fn finish_frame(&mut self, present: PresentResult) -> (r: FrameEnd)
        requires
            old(self).wf(),
        ensures
            final(self).wf(),
            final(self).max_frames == old(self).max_frames,
            final(self).images_in_flight == old(self).images_in_flight,
            final(self).tolerate_suboptimal_acquire == old(self).tolerate_suboptimal_acquire,
            match present {
                PresentResult::Error { code } => r == (FrameEnd::Abandon { code })
                    && *final(self) == *old(self),
                PresentResult::OutOfDate => r == FrameEnd::Recreate && !final(self).resized
                    && final(self).frame == next_frame(
                    old(self).frame as nat,
                    old(self).max_frames as nat,
                ),
                PresentResult::Success { suboptimal } => {
                    &&& final(self).frame == next_frame(
                        old(self).frame as nat,
                        old(self).max_frames as nat,
                    )
                    &&& if old(self).resized || suboptimal {
                        r == FrameEnd::Recreate && !final(self).resized
                    } else {
                        r == FrameEnd::Continue && final(self).resized == old(self).resized
                    }
                },
            },
    {
        match present {
            PresentResult::Error { code } => FrameEnd::Abandon { code },
            PresentResult::OutOfDate => {
                self.resized = false;
                self.frame = (self.frame + 1) % self.max_frames;
                FrameEnd::Recreate
            },
            PresentResult::Success { suboptimal } => {
                let recreate = self.resized || suboptimal;
                if recreate {
                    self.resized = false;
                }
                self.frame = (self.frame + 1) % self.max_frames;
                if recreate {
                    FrameEnd::Recreate
                } else {
                    FrameEnd::Continue
                }
            },
        }
    }
}

/// Stepping `k` frames lands on `(f + k) mod n`.
pub proof fn lemma_frame_after_linear(f: nat, n: nat, k: nat)
    requires
        n >= 1,
        f < n,
    ensures
        frame_after(f, n, k) == (((f + k) as int) % (n as int)) as nat,
    decreases k,
{
    if k == 0 {
        lemma_small_mod(f, n);
    } else {
        lemma_frame_after_linear(f, n, (k - 1) as nat);
        let prev = frame_after(f, n, (k - 1) as nat);
        assert(prev == ((f + (k - 1)) as int) % (n as int));
        lemma_mod_adds_one(f, n, (k - 1) as nat);
    }
}

/// Adding one more step to `(f + k) mod n` gives `(f + k + 1) mod n`.
proof fn lemma_mod_adds_one(f: nat, n: nat, k: nat)
    requires
        n >= 1,
    ensures
        (((((f + k) as int) % (n as int)) + 1) % (n as int)) == ((f + k + 1) as int) % (n as int),
{
    let m = n as int;
    let s = (f + k) as int;
    vstd::arithmetic::div_mod::lemma_fundamental_div_mod(s, m);
    let q = s / m;
    assert(s == q * m + s % m);
    assert(s + 1 == q * m + (s % m + 1));
    lemma_mod_multiples_vanish(q, s % m + 1, m);
    assert((q * m + (s % m + 1)) % m == (s % m + 1) % m) by {
        assert(m * q == q * m) by (nonlinear_arith);
    }
}

/// Frame cycling: after exactly `n` successful frame submissions with no
/// resize, the frame-in-flight index returns to its starting value.
pub proof fn lemma_frame_cycling(f: nat, n: nat)
    requires
        n >= 1,
        f < n,
    ensures
        frame_after(f, n, n) == f,
{
    lemma_frame_after_linear(f, n, n);
    let m = n as int;
    lemma_mod_multiples_vanish(1, f as int, m);
    assert(m * 1 + f == f + n);
    lemma_small_mod(f, n);
}

} // verus!
