//! Verified core of a real-time renderer: scene graph with stable handles,
//! swapchain/frame lifecycle bookkeeping, GPU resource accounting, and the
//! pure data transformations that feed the GPU (pixel interleaving, mip
//! chains, vertex/index assembly).
//!
//! Everything that talks to the graphics driver or the window system lives
//! outside this crate; the library computes decisions and resource layouts
//! from plain values and proves the invariants the graphics API demands.

pub mod allocator;
pub mod app_data;
pub mod assets;
pub mod camera;
pub mod commands;
pub mod descriptor;
pub mod device;
pub mod fx;
pub mod geometry;
pub mod gui;
pub mod ids;
pub mod input;
pub mod lifecycle;
pub mod pixels;
pub mod render_pass;
pub mod scene;
pub mod slab;
pub mod teardown;
pub mod texture;
pub mod transform;
