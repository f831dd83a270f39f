//! What holds of every frame the renderer paces: statements about the
//! transition [`next`](crate::renderer::next), each proved for all states.

use crate::encoder::{spec_clear_color, spec_clear_depth, Command};
use crate::error::{AcquireError, FlushError, RenderError};
use crate::framebuffer::{same_dimensions, spec_framebuffers};
use crate::pipeline::spec_pipeline;
use crate::renderer::{
    force_recreate, next, ActionView, EventView, Phase, RendererView, ResourcesView, SubmitOutcome,
};
use crate::scene::Object;
use crate::surface::Extent;
use vstd::prelude::*;

verus! {

/// The state and the request once a frame has been started and, where a
/// frame was in flight, its finished work has been retired.
pub open spec fn started(s: RendererView, scene: Option<Seq<Object>>) -> (RendererView, ActionView) {
    let (first, action) = next(s, EventView::RenderScene, scene);
    if action is CleanupFinished {
        next(first, EventView::CleanedUp, scene)
    } else {
        (first, action)
    }
}

/// A frame can be started in every state.  It starts by retiring finished
/// work exactly if a frame is in flight, and then turns to the window if
/// the swapchain is to be recreated and to the swapchain otherwise.
pub proof fn lemma_frame_can_always_start(s: RendererView, scene: Option<Seq<Object>>)
    ensures
        next(s, EventView::RenderScene, scene).1 is CleanupFinished <==> s.previous_frame is Some,
        !(next(s, EventView::RenderScene, scene).1 is Failed),
        started(s, scene) == s.prepare(),
        started(s, scene).1 == if s.recreate_swapchain {
            ActionView::QueryWindow
        } else {
            ActionView::AcquireImage
        },
{
}

/// An image is only ever asked for while the swapchain is taken to fit:
/// whenever the renderer asks for one, the recreate flag is clear.
pub proof fn lemma_acquire_only_when_fitting(
    s: RendererView,
    event: EventView,
    scene: Option<Seq<Object>>,
)
    ensures
        next(s, event, scene).1 is AcquireImage ==> !next(s, event, scene).0.recreate_swapchain,
{
}

/// Once set, the recreate flag stays set until pipeline and framebuffers
/// have been rebuilt for a recreated swapchain.
pub proof fn lemma_flag_cleared_by_rebuild_only(
    s: RendererView,
    event: EventView,
    scene: Option<Seq<Object>>,
)
    requires
        s.recreate_swapchain,
        !next(s, event, scene).0.recreate_swapchain,
    ensures
        s.phase is AwaitingResources,
        event matches EventView::ResourcesRebuilt(result) && result is Ok,
        s.pending matches Some(pending) ==> next(s, event, scene).0.current == pending,
{
}

/// After a forced recreation the next frame rebuilds before it acquires:
/// it asks for the size of the window, then for the swapchain at that
/// size, then for the pipeline and the framebuffers of the new images, and
/// only then for an image.  If the new images have the size of the window,
/// the viewport of the rebuilt pipeline has it too.
pub proof fn lemma_recreate_precedes_acquire(
    s: RendererView,
    window: Extent,
    images: Seq<Extent>,
    scene: Option<Seq<Object>>,
)
    requires
        s.wf(),
        images.len() > 0,
        same_dimensions(images),
    ensures
        ({
            let forced = force_recreate(s);
            let (s1, a1) = started(forced, scene);
            let (s2, a2) = next(s1, EventView::WindowDimensions(Some(window)), scene);
            let (s3, a3) = next(s2, EventView::SwapchainRecreated(Some(images)), scene);
            let (s4, a4) = next(s3, EventView::ResourcesRebuilt(Ok(())), scene);
            let config = s.current.swapchain.spec_recreate(window);
            &&& a1 == ActionView::QueryWindow
            &&& a2 == ActionView::RecreateSwapchain { config }
            &&& config.format == s.current.swapchain.format
            &&& config.extent == window
            &&& a3 == (ActionView::RebuildResources {
                pipeline: spec_pipeline(images[0]),
                framebuffers: spec_framebuffers(images),
            })
            &&& s3.current == s.current
            &&& a4 == ActionView::AcquireImage
            &&& s4.current == ResourcesView::for_swapchain(config, images)
            &&& s4.render_pass == s.render_pass
            &&& s4.previous_frame == s.previous_frame
            &&& !s4.recreate_swapchain
            &&& s4.phase == Phase::AwaitingImage
            &&& s4.wf()
            &&& images[0] == window ==> s4.pipeline().viewport == window
        }),
{
    let forced = force_recreate(s);
    let (s1, a1) = started(forced, scene);
    let (s2, a2) = next(s1, EventView::WindowDimensions(Some(window)), scene);
    let (s3, a3) = next(s2, EventView::SwapchainRecreated(Some(images)), scene);
    let config = s.current.swapchain.spec_recreate(window);
    assert(ResourcesView::for_swapchain(config, images).wf());
    assert(s3.wf());
}

/// A stale swapchain at acquisition gives the frame up with a recoverable
/// error and leaves the recreate flag set; nothing else of the renderer
/// changes, and the next frame starts by recreating the swapchain.
pub proof fn lemma_stale_acquire(s: RendererView, scene: Option<Seq<Object>>)
    requires
        s.phase is AwaitingImage,
    ensures
        ({
            let (after, action) = next(
                s,
                EventView::ImageAcquired(Err(AcquireError::OutOfDate)),
                scene,
            );
            &&& action == ActionView::Failed(RenderError::AcquireError(AcquireError::OutOfDate))
            &&& RenderError::AcquireError(AcquireError::OutOfDate).spec_is_recoverable()
            &&& after == RendererView { recreate_swapchain: true, phase: Phase::Idle, ..s }
            &&& started(after, scene).1 == ActionView::QueryWindow
        }),
{
}

/// Whenever a frame is given up for a stale swapchain, the recreate flag is
/// set afterwards.
pub proof fn lemma_stale_swapchain_is_noted(
    s: RendererView,
    event: EventView,
    scene: Option<Seq<Object>>,
)
    ensures
        next(s, event, scene).1 matches ActionView::Failed(error) && (error
            == RenderError::AcquireError(AcquireError::OutOfDate) || error
            == RenderError::FlushError(FlushError::OutOfDate)) ==> next(
            s,
            event,
            scene,
        ).0.recreate_swapchain,
{
}

/// Without an active scene a frame on a fitting swapchain goes through, as
/// long as the device does its part: the image is acquired, the recorded
/// commands clear it and draw nothing, the frame is handed out, submitted
/// and completed, and it is then the frame in flight.
pub proof fn lemma_empty_scene_frame(s: RendererView, image: usize)
    requires
        s.wf(),
        !s.recreate_swapchain,
        image < s.current.images.len(),
    ensures
        ({
            let (s1, a1) = started(s, None);
            let (s2, a2) = next(s1, EventView::ImageAcquired(Ok(image)), None);
            let (s3, a3) = next(s2, EventView::SceneRecorded(Ok(())), None);
            let (s4, a4) = next(s3, EventView::ExecuteCommandBuffer, None);
            let (s5, a5) = next(s4, EventView::FrameSubmitted(SubmitOutcome::Presented), None);
            &&& a1 == ActionView::AcquireImage
            &&& a2 == (ActionView::RecordScene {
                image,
                commands: seq![
                    Command::BeginRenderPass {
                        framebuffer: image,
                        color: spec_clear_color(),
                        depth: spec_clear_depth(),
                    },
                    Command::EndRenderPass,
                ],
            })
            &&& a3 == ActionView::FrameReady { image }
            &&& a4 == ActionView::Submit { image, join_previous: s.previous_frame is Some }
            &&& a5 == ActionView::Completed
            &&& s5 == RendererView {
                previous_frame: Some(image),
                phase: Phase::Idle,
                pending: None,
                ..s
            }
        }),
{
    crate::encoder::lemma_empty_frame(image);
}

/// The frame in flight is kept through everything but the end of a
/// submission: no other event replaces or drops it.
pub proof fn lemma_frame_in_flight_is_kept(
    s: RendererView,
    event: EventView,
    scene: Option<Seq<Object>>,
)
    requires
        !(s.phase is Submitted && event is FrameSubmitted),
    ensures
        next(s, event, scene).0.previous_frame == s.previous_frame,
{
}

/// A frame is submitted behind the frame in flight exactly if there is one.
pub proof fn lemma_submission_joins_frame_in_flight(
    s: RendererView,
    event: EventView,
    scene: Option<Seq<Object>>,
)
    ensures
        next(s, event, scene).1 matches ActionView::Submit { image, join_previous } ==> {
            &&& join_previous == (s.previous_frame is Some)
            &&& s.phase == Phase::Recording { image }
            &&& next(s, event, scene).0.previous_frame == s.previous_frame
        },
{
}

/// How a submission ends.  With success the submitted frame replaces the
/// frame in flight.  If the command buffer could not be built, nothing was
/// submitted and the frame in flight stays.  After any other failure no
/// frame is in flight, so the next one starts a fresh timeline.  In every
/// case the swapchain and its resources are untouched, no frame is in
/// progress, and the next frame can be started.
pub proof fn lemma_submission_outcome(
    s: RendererView,
    image: usize,
    outcome: SubmitOutcome,
    scene: Option<Seq<Object>>,
)
    requires
        s.phase == (Phase::Submitted { image }),
    ensures
        ({
            let (after, action) = next(s, EventView::FrameSubmitted(outcome), scene);
            &&& action is Completed <==> outcome is Presented
            &&& action is Completed || action is Failed
            &&& after.previous_frame == match outcome {
                SubmitOutcome::Presented => Some(image),
                SubmitOutcome::BuildFailed => s.previous_frame,
                _ => None,
            }
            &&& after.recreate_swapchain == (s.recreate_swapchain || outcome
                == SubmitOutcome::FlushFailed(FlushError::OutOfDate))
            &&& after.current == s.current
            &&& after.render_pass == s.render_pass
            &&& after.phase == Phase::Idle
            &&& !(next(after, EventView::RenderScene, scene).1 is Failed)
        }),
{
}

/// A frame that is given up leaves nothing behind: the swapchain, its
/// resources and the render pass are as before, and unless the renderer
/// was told of something it had not asked for, no frame is in progress.
pub proof fn lemma_failure_leaves_no_trace(
    s: RendererView,
    event: EventView,
    scene: Option<Seq<Object>>,
)
    ensures
        next(s, event, scene).1 matches ActionView::Failed(error) ==> {
            let after = next(s, event, scene).0;
            &&& after.current == s.current
            &&& after.render_pass == s.render_pass
            &&& error != RenderError::UnexpectedEvent ==> after.phase == Phase::Idle
            &&& error == RenderError::UnexpectedEvent ==> after == s
        },
{
}

} // verus!
