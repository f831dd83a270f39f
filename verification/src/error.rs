//! Error types of the renderer.

use crate::surface::Extent;
use vstd::prelude::*;

verus! {

/// Why the framebuffers of a swapchain could not be created.
#[derive(Clone, Copy, Debug, PartialEq, Eq, Structural)]
pub enum FramebufferCreationError {
    /// A colour image does not have the size of the depth attachment.
    AttachmentDimensionsIncompatible {
        /// Size of the colour image.
        expected: Extent,
        /// Size of the depth attachment.
        obtained: Extent,
    },
    /// The device refused to create a framebuffer.
    DeviceError,
}

/// Why a renderer could not be set up.
#[derive(Clone, Copy, Debug, PartialEq, Eq, Structural)]
pub enum RendererCreationError {
    /// No graphics adapter was enumerated.
    NoPhysicalDeviceError,
    /// The adapter lacks a capability that the logical device needs.
    DeviceCreationError,
    /// The swapchain holds no image.
    SwapchainCreationError,
    /// No framebuffers fit the images of the swapchain.
    FramebufferCreationError(FramebufferCreationError),
}

/// Why no swapchain image could be acquired.
#[derive(Clone, Copy, Debug, PartialEq, Eq, Structural)]
pub enum AcquireError {
    /// Not enough memory.
    OomError,
    /// The connection to the device has been lost.
    DeviceLost,
    /// No image became available in time.
    Timeout,
    /// The surface is no longer accessible.
    SurfaceLost,
    /// The surface has changed and the swapchain no longer fits it.
    OutOfDate,
}

/// Why submitted work could not be flushed to the device.
#[derive(Clone, Copy, Debug, PartialEq, Eq, Structural)]
pub enum FlushError {
    /// Access to a resource has been denied.
    AccessError,
    /// Not enough memory.
    OomError,
    /// The connection to the device has been lost.
    DeviceLost,
    /// The surface is no longer accessible.
    SurfaceLost,
    /// The surface has changed and the swapchain no longer fits it.
    OutOfDate,
    /// The flush had to wait and ran out of time.
    Timeout,
}

/// Why the commands of a scene could not be recorded.
#[derive(Clone, Copy, Debug, PartialEq, Eq, Structural)]
pub enum EncodingError {
    /// A region of a uniform buffer could not be obtained.
    UniformBuffer,
    /// A descriptor set could not be built.
    DescriptorSet,
    /// A command was rejected by the command buffer.
    Command,
}

/// Why a frame was not rendered.  No variant is fatal to the renderer: the
/// next frame can always be attempted.
#[derive(Clone, Copy, Debug, PartialEq, Eq, Structural)]
pub enum RenderError {
    /// No image could be acquired.
    AcquireError(AcquireError),
    /// The submitted frame could not be flushed or presented.
    FlushError(FlushError),
    /// The window is gone, so its size is unknown.
    WindowClosed,
    /// The swapchain could not be recreated.
    SwapchainCreationError,
    /// The pipeline could not be rebuilt.
    GraphicsPipelineCreationError,
    /// The framebuffers could not be rebuilt.
    FramebufferCreationError(FramebufferCreationError),
    /// The acquired image is not one of the swapchain's.
    ImageOutOfRange,
    /// The scene could not be recorded.
    EncodingError(EncodingError),
    /// The command buffer could not be built.
    BuildError,
    /// The command buffer could not be handed to the queue.
    CommandBufferExecError,
    /// The renderer was told of something it had not asked for.
    UnexpectedEvent,
}

impl RenderError {
    /// The frame failed because the swapchain is stale or the window is
    /// gone: skip the frame and try again.
    pub open spec fn spec_is_recoverable(self) -> bool {
        ||| self == RenderError::AcquireError(AcquireError::OutOfDate)
        ||| self == RenderError::FlushError(FlushError::OutOfDate)
        ||| self == RenderError::WindowClosed
    }

    /// The frame failed because the swapchain is stale or the window is
    /// gone: skip the frame and try again.
    pub fn is_recoverable(&self) -> (recoverable: bool)
        ensures
            recoverable == self.spec_is_recoverable(),
    {
        match self {
            RenderError::AcquireError(AcquireError::OutOfDate) => true,
            RenderError::FlushError(FlushError::OutOfDate) => true,
            RenderError::WindowClosed => true,
            _ => false,
        }
    }
}

} // verus!
