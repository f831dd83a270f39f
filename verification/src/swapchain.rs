//! Choice of the swapchain parameters.

use crate::surface::{Extent, Format, SurfaceCapabilities};
use vstd::prelude::*;

verus! {

/// How finished images are handed to the display.
#[derive(Clone, Copy, Debug, PartialEq, Eq, Structural)]
pub enum PresentMode {
    /// The newest finished image replaces a waiting one: low latency
    /// without tearing.
    Mailbox,
    /// Finished images queue up for the vertical blank; always available.
    Fifo,
}

/// The parameters a swapchain is created with.
#[derive(Clone, Copy, Debug, PartialEq, Eq, Structural)]
pub struct SwapchainConfig {
    pub image_count: u32,
    pub format: Format,
    pub extent: Extent,
    pub present_mode: PresentMode,
}

impl SwapchainConfig {
    /// The same swapchain at another size.
    pub open spec fn spec_recreate(self, new_dimensions: Extent) -> SwapchainConfig {
        SwapchainConfig { extent: new_dimensions, ..self }
    }

    /// The parameters to recreate this swapchain with at `new_dimensions`:
    /// only the size changes, the format stays.
    pub fn recreate(&self, new_dimensions: Extent) -> (config: SwapchainConfig)
        ensures
            config == self.spec_recreate(new_dimensions),
    {
        SwapchainConfig {
            image_count: self.image_count,
            format: self.format,
            extent: new_dimensions,
            present_mode: self.present_mode,
        }
    }
}

/// The swapchain for a surface with the given capabilities in a window of
/// the given size: the least image count, the first supported format, the
/// surface's own size where it has one and the window's otherwise, and
/// mailbox presentation where supported, FIFO otherwise.
pub open spec fn spec_swapchain_config(
    min_image_count: u32,
    current_extent: Option<Extent>,
    supported_formats: Seq<Format>,
    mailbox: bool,
    window_dimensions: Extent,
) -> SwapchainConfig {
    SwapchainConfig {
        image_count: min_image_count,
        format: supported_formats[0],
        extent: match current_extent {
            Some(extent) => extent,
            None => window_dimensions,
        },
        present_mode: if mailbox {
            PresentMode::Mailbox
        } else {
            PresentMode::Fifo
        },
    }
}

/// Chooses the parameters of the swapchain for a surface.  The surface must
/// support at least one format.
pub fn create_swapchain(capabilities: &SurfaceCapabilities, window_dimensions: Extent) -> (config:
    SwapchainConfig)
    requires
        capabilities.supported_formats.len() > 0,
    ensures
        config == spec_swapchain_config(
            capabilities.min_image_count,
            capabilities.current_extent,
            capabilities.supported_formats@,
            capabilities.mailbox,
            window_dimensions,
        ),
{
    let format = capabilities.supported_formats[0];
    let extent = match capabilities.current_extent {
        Some(extent) => extent,
        None => window_dimensions,
    };
    let present_mode = if capabilities.mailbox {
        PresentMode::Mailbox
    } else {
        PresentMode::Fifo
    };
    SwapchainConfig { image_count: capabilities.min_image_count, format, extent, present_mode }
}

} // verus!
