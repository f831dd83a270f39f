//! Description of the graphics pipeline.

use crate::surface::Extent;
use vstd::prelude::*;

verus! {

/// How vertices are assembled into primitives.
#[derive(Clone, Copy, Debug, PartialEq, Eq, Structural)]
pub enum PrimitiveTopology {
    TriangleList,
}

/// A graphics pipeline.  Its viewport is part of it: a pipeline fits one
/// output size only.
#[derive(Clone, Copy, Debug, PartialEq, Eq, Structural)]
pub struct Pipeline {
    /// Size of the single viewport, whose origin is the upper left corner
    /// and whose depth range is the full one.
    pub viewport: Extent,
    pub topology: PrimitiveTopology,
    /// Fragments are tested against, and written to, the depth buffer.
    pub depth_test: bool,
    /// Index of the subpass the pipeline draws in.
    pub subpass: u32,
}

/// The pipeline for an output of the given size: triangle lists, a viewport
/// that covers the output, depth test on, drawing in the first subpass.
pub open spec fn spec_pipeline(dimensions: Extent) -> Pipeline {
    Pipeline {
        viewport: dimensions,
        topology: PrimitiveTopology::TriangleList,
        depth_test: true,
        subpass: 0,
    }
}

/// Describes the pipeline that draws to images of the given size.
pub fn create_pipeline(dimensions: Extent) -> (pipeline: Pipeline)
    ensures
        pipeline == spec_pipeline(dimensions),
{
    Pipeline {
        viewport: dimensions,
        topology: PrimitiveTopology::TriangleList,
        depth_test: true,
        subpass: 0,
    }
}

} // verus!
