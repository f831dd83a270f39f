//! Plain descriptions of a presentation surface.

use vstd::prelude::*;

verus! {

/// Width and height in pixels.
#[derive(Clone, Copy, Debug, PartialEq, Eq, Structural)]
pub struct Extent {
    pub width: u32,
    pub height: u32,
}

/// A pixel format, named by the code the graphics API gives it.
#[derive(Clone, Copy, Debug, PartialEq, Eq, Structural)]
pub struct Format {
    pub code: u32,
}

/// Code of the 16-bit normalised depth format.
pub const D16_UNORM: u32 = 124;

/// What a surface supports, as far as the swapchain depends on it.
#[derive(Clone, Debug, PartialEq, Eq)]
pub struct SurfaceCapabilities {
    /// Least number of images a swapchain on this surface must have.
    pub min_image_count: u32,
    /// Current size of the surface, where the surface fixes it.
    pub current_extent: Option<Extent>,
    /// Formats the surface can present, in the order the device lists them.
    pub supported_formats: Vec<Format>,
    /// The surface supports the mailbox present mode.
    pub mailbox: bool,
}

} // verus!
