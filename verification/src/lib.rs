//! Decision core of a Vulkan-style renderer.
//!
//! Everything that touches the graphics device or the window system is
//! left to the caller.  This crate holds the rules in between: which
//! adapter to pick, how the swapchain and its dependent resources are
//! described, what a frame records, and how frames and updates are paced.
//! Each rule is an executable function whose contract is proved.

pub mod device;
pub mod encoder;
pub mod engine;
pub mod error;
pub mod frame_rate;
pub mod framebuffer;
pub mod pacing;
pub mod pipeline;
pub mod render_pass;
pub mod renderer;
pub mod scene;
pub mod surface;
pub mod swapchain;
