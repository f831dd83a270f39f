//! Description of the render pass.

use crate::surface::{Format, D16_UNORM};
use vstd::prelude::*;

verus! {

/// What happens to an attachment when the render pass begins.
#[derive(Clone, Copy, Debug, PartialEq, Eq, Structural)]
pub enum LoadOp {
    Load,
    Clear,
    DontCare,
}

/// What happens to an attachment when the render pass ends.
#[derive(Clone, Copy, Debug, PartialEq, Eq, Structural)]
pub enum StoreOp {
    Store,
    DontCare,
}

/// One attachment of a render pass.
#[derive(Clone, Copy, Debug, PartialEq, Eq, Structural)]
pub struct Attachment {
    pub format: Format,
    pub load: LoadOp,
    pub store: StoreOp,
    pub samples: u32,
}

/// A render pass of a single subpass that writes one colour attachment and
/// tests against one depth attachment.
#[derive(Clone, Copy, Debug, PartialEq, Eq, Structural)]
pub struct RenderPass {
    pub color: Attachment,
    pub depth: Attachment,
}

/// The render pass for a colour format: the colour attachment is cleared
/// when the pass begins and stored when it ends; the depth attachment has
/// the 16-bit depth format, is cleared when the pass begins and discarded
/// when it ends.  Neither is multisampled.
pub open spec fn spec_render_pass(color_format: Format) -> RenderPass {
    RenderPass {
        color: Attachment {
            format: color_format,
            load: LoadOp::Clear,
            store: StoreOp::Store,
            samples: 1,
        },
        depth: Attachment {
            format: Format { code: D16_UNORM },
            load: LoadOp::Clear,
            store: StoreOp::DontCare,
            samples: 1,
        },
    }
}

/// Describes the render pass for a swapchain of the given colour format.
pub fn create_renderpass(format: Format) -> (render_pass: RenderPass)
    ensures
        render_pass == spec_render_pass(format),
{
    RenderPass {
        color: Attachment { format, load: LoadOp::Clear, store: StoreOp::Store, samples: 1 },
        depth: Attachment {
            format: Format { code: D16_UNORM },
            load: LoadOp::Clear,
            store: StoreOp::DontCare,
            samples: 1,
        },
    }
}

} // verus!
