//! Description of the framebuffers of a swapchain.

use crate::error::FramebufferCreationError;
use crate::surface::{Extent, Format, D16_UNORM};
use vstd::prelude::*;

verus! {

/// The depth attachment that all framebuffers of a swapchain share.
#[derive(Clone, Copy, Debug, PartialEq, Eq, Structural)]
pub struct DepthBuffer {
    pub dimensions: Extent,
    pub format: Format,
}

/// One framebuffer: a swapchain image as colour attachment, paired with the
/// shared depth attachment.
#[derive(Clone, Copy, Debug, PartialEq, Eq, Structural)]
pub struct Framebuffer {
    /// Position of the colour image in the swapchain.
    pub color_image: usize,
    pub dimensions: Extent,
    pub depth: DepthBuffer,
}

/// The depth attachment for a swapchain with the given images: it has the
/// size of the first image and the 16-bit depth format.
pub open spec fn spec_depth_buffer(images: Seq<Extent>) -> DepthBuffer {
    DepthBuffer { dimensions: images[0], format: Format { code: D16_UNORM } }
}

/// The framebuffer of image `i`.
pub open spec fn spec_framebuffer(images: Seq<Extent>, i: int) -> Framebuffer {
    Framebuffer {
        color_image: i as usize,
        dimensions: images[i],
        depth: spec_depth_buffer(images),
    }
}

/// One framebuffer per image, in image order.
pub open spec fn spec_framebuffers(images: Seq<Extent>) -> Seq<Framebuffer> {
    Seq::new(images.len(), |i: int| spec_framebuffer(images, i))
}

/// Every image has the size of the first one, and so of the depth
/// attachment.
pub open spec fn same_dimensions(images: Seq<Extent>) -> bool {
    forall|i: int| 0 <= i < images.len() ==> #[trigger] images[i] == images[0]
}

/// `k` is the first image whose size differs from that of the first image.
pub open spec fn first_mismatch(images: Seq<Extent>, k: int) -> bool {
    &&& 0 <= k < images.len()
    &&& images[k] != images[0]
    &&& forall|j: int| 0 <= j < k ==> #[trigger] images[j] == images[0]
}

/// The framebuffers of a swapchain, or the reason why there are none: the
/// first image that does not fit the depth attachment.
pub open spec fn spec_create_framebuffers(images: Seq<Extent>) -> Result<
    Seq<Framebuffer>,
    FramebufferCreationError,
> {
    if same_dimensions(images) {
        Ok(spec_framebuffers(images))
    } else {
        let k = choose|k: int| first_mismatch(images, k);
        Err(
            FramebufferCreationError::AttachmentDimensionsIncompatible {
                expected: images[k],
                obtained: images[0],
            },
        )
    }
}

/// Describes the framebuffers of a swapchain from the sizes of its images.
/// All share one depth attachment of the size of the first image, so the
/// description fails at the first image of another size.
pub fn create_framebuffers(images: &Vec<Extent>) -> (result: Result<
    Vec<Framebuffer>,
    FramebufferCreationError,
>)
    requires
        images.len() > 0,
    ensures
        result is Ok <==> same_dimensions(images@),
        result matches Ok(framebuffers) ==> framebuffers@ == spec_framebuffers(images@),
        result matches Err(e) ==> exists|k: int|
            first_mismatch(images@, k) && e
                == (FramebufferCreationError::AttachmentDimensionsIncompatible {
                expected: images@[k],
                obtained: images@[0],
            }),
        match result {
            Ok(framebuffers) => spec_create_framebuffers(images@) == Ok::<
                Seq<Framebuffer>,
                FramebufferCreationError,
            >(framebuffers@),
            Err(e) => spec_create_framebuffers(images@) == Err::<
                Seq<Framebuffer>,
                FramebufferCreationError,
            >(e),
        },
{
    let depth = DepthBuffer { dimensions: images[0], format: Format { code: D16_UNORM } };
    let mut framebuffers: Vec<Framebuffer> = Vec::new();
    let mut i: usize = 0;
    while i < images.len()
        invariant
            i <= images.len(),
            images.len() > 0,
            depth == spec_depth_buffer(images@),
            framebuffers@ == Seq::new(i as nat, |j: int| spec_framebuffer(images@, j)),
            forall|j: int| 0 <= j < i ==> #[trigger] images@[j] == images@[0],
        decreases images.len() - i,
    {
        if images[i] != images[0] {
            proof {
                assert(first_mismatch(images@, i as int));
                lemma_first_mismatch_unique(images@, i as int);
            }
            return Err(
                FramebufferCreationError::AttachmentDimensionsIncompatible {
                    expected: images[i],
                    obtained: images[0],
                },
            );
        }
        framebuffers.push(Framebuffer { color_image: i, dimensions: images[i], depth });
        i += 1;
    }
    Ok(framebuffers)
}

/// There is at most one first mismatch, and where there is one the images
/// do not all have the same size.
pub proof fn lemma_first_mismatch_unique(images: Seq<Extent>, k: int)
    requires
        first_mismatch(images, k),
    ensures
        !same_dimensions(images),
        forall|other: int| first_mismatch(images, other) ==> other == k,
        spec_create_framebuffers(images) == Err::<Seq<Framebuffer>, FramebufferCreationError>(
            FramebufferCreationError::AttachmentDimensionsIncompatible {
                expected: images[k],
                obtained: images[0],
            },
        ),
{
    assert forall|other: int| first_mismatch(images, other) implies other == k by {
        if other < k {
            assert(images[other] == images[0]);
        } else if k < other {
            assert(images[k] == images[0]);
        }
    }
    let chosen = choose|c: int| first_mismatch(images, c);
    assert(first_mismatch(images, chosen));
}

} // verus!
