//! The renderer: what it owns, and how a frame proceeds.
//!
//! The renderer never touches the device.  It is told what happened
//! ([`FrameEvent`]) and answers with what to do next ([`FrameAction`]); the
//! caller performs the action and reports its outcome.  The transition from
//! state and event to next state and action is [`next`].

use crate::encoder::{add_scene_commands, frame_commands, Command};
use crate::error::{
    AcquireError, EncodingError, FlushError, FramebufferCreationError, RenderError,
    RendererCreationError,
};
use crate::framebuffer::{
    create_framebuffers, same_dimensions, spec_create_framebuffers, spec_framebuffer,
    spec_framebuffers, Framebuffer,
};
use crate::pipeline::{create_pipeline, spec_pipeline, Pipeline};
use crate::render_pass::{create_renderpass, spec_render_pass, RenderPass};
use crate::scene::{AssetManager, Object};
use crate::surface::Extent;
use crate::swapchain::SwapchainConfig;
use vstd::prelude::*;

verus! {

/// Where the renderer stands within a frame.
#[derive(Clone, Copy, Debug, PartialEq, Eq, Structural)]
pub enum Phase {
    /// No frame is in progress and no image is held.
    Idle,
    /// Finished work of the frame in flight is being retired.
    CleaningUp,
    /// The size of the window has been asked for.
    AwaitingWindow,
    /// The swapchain is being recreated with these parameters.
    AwaitingSwapchain { config: SwapchainConfig },
    /// Pipeline and framebuffers are being rebuilt for the new swapchain.
    AwaitingResources,
    /// An image has been asked for.
    AwaitingImage,
    /// An image is held and the scene is being recorded.
    Acquired { image: usize },
    /// The scene is recorded and the command buffer is still open.
    Recording { image: usize },
    /// The frame has been handed to the device.
    Submitted { image: usize },
}

/// Which resource could not be rebuilt after the swapchain was recreated.
#[derive(Clone, Copy, Debug, PartialEq, Eq, Structural)]
pub enum RebuildError {
    Pipeline,
    Framebuffers,
}

/// How the submission of a frame ended.
#[derive(Clone, Copy, Debug, PartialEq, Eq, Structural)]
pub enum SubmitOutcome {
    /// The frame was executed, presented and flushed.
    Presented,
    /// The command buffer could not be built; nothing was submitted and the
    /// frame in flight is untouched.
    BuildFailed,
    /// The command buffer was refused by the queue.
    ExecuteFailed,
    /// Presenting or flushing failed.
    FlushFailed(FlushError),
}

/// What the renderer is told.
#[derive(Debug, PartialEq, Eq)]
pub enum FrameEvent {
    /// A frame is wanted.
    RenderScene,
    /// Finished work of the frame in flight has been retired.
    CleanedUp,
    /// The size of the window, or `None` where the window is gone.
    WindowDimensions(Option<Extent>),
    /// The sizes of the images of the recreated swapchain, or `None` where
    /// the device could not recreate it.
    SwapchainRecreated(Option<Vec<Extent>>),
    /// Pipeline and framebuffers have been rebuilt, or one of them failed.
    ResourcesRebuilt(Result<(), RebuildError>),
    /// The position of the acquired image in the swapchain, or why none
    /// was acquired.
    ImageAcquired(Result<usize, AcquireError>),
    /// The commands of the scene have been recorded, or one of them failed.
    SceneRecorded(Result<(), EncodingError>),
    /// The recorded frame is to be submitted.
    ExecuteCommandBuffer,
    /// The submission has ended.
    FrameSubmitted(SubmitOutcome),
}

/// What the renderer asks for.
#[derive(Debug, PartialEq, Eq)]
pub enum FrameAction {
    /// Retire the finished work of the frame in flight, without waiting.
    CleanupFinished,
    /// Report the size of the window.
    QueryWindow,
    /// Recreate the swapchain with these parameters.
    RecreateSwapchain { config: SwapchainConfig },
    /// Build this pipeline and these framebuffers for the new swapchain.
    RebuildResources { pipeline: Pipeline, framebuffers: Vec<Framebuffer> },
    /// Acquire the next image of the swapchain.
    AcquireImage,
    /// Record these commands for the acquired image.
    RecordScene { image: usize, commands: Vec<Command> },
    /// The frame is recorded: hand it out, its command buffer still open.
    FrameReady { image: usize },
    /// Close the command buffer and submit it: behind the frame in flight
    /// where `join_previous` holds, on a fresh timeline otherwise; then
    /// present the image and flush.
    Submit { image: usize, join_previous: bool },
    /// The frame is on its way to the display.
    Completed,
    /// The frame is given up.
    Failed(RenderError),
}

/// A [`FrameEvent`] as a mathematical value.
pub enum EventView {
    RenderScene,
    CleanedUp,
    WindowDimensions(Option<Extent>),
    SwapchainRecreated(Option<Seq<Extent>>),
    ResourcesRebuilt(Result<(), RebuildError>),
    ImageAcquired(Result<usize, AcquireError>),
    SceneRecorded(Result<(), EncodingError>),
    ExecuteCommandBuffer,
    FrameSubmitted(SubmitOutcome),
}

/// A [`FrameAction`] as a mathematical value.
pub enum ActionView {
    CleanupFinished,
    QueryWindow,
    RecreateSwapchain { config: SwapchainConfig },
    RebuildResources { pipeline: Pipeline, framebuffers: Seq<Framebuffer> },
    AcquireImage,
    RecordScene { image: usize, commands: Seq<Command> },
    FrameReady { image: usize },
    Submit { image: usize, join_previous: bool },
    Completed,
    Failed(RenderError),
}

impl View for FrameEvent {
    type V = EventView;

    open spec fn view(&self) -> EventView {
        match *self {
            FrameEvent::RenderScene => EventView::RenderScene,
            FrameEvent::CleanedUp => EventView::CleanedUp,
            FrameEvent::WindowDimensions(d) => EventView::WindowDimensions(d),
            FrameEvent::SwapchainRecreated(images) => EventView::SwapchainRecreated(
                match images {
                    Some(images) => Some(images@),
                    None => None,
                },
            ),
            FrameEvent::ResourcesRebuilt(r) => EventView::ResourcesRebuilt(r),
            FrameEvent::ImageAcquired(r) => EventView::ImageAcquired(r),
            FrameEvent::SceneRecorded(r) => EventView::SceneRecorded(r),
            FrameEvent::ExecuteCommandBuffer => EventView::ExecuteCommandBuffer,
            FrameEvent::FrameSubmitted(o) => EventView::FrameSubmitted(o),
        }
    }
}

impl View for FrameAction {
    type V = ActionView;

    open spec fn view(&self) -> ActionView {
        match *self {
            FrameAction::CleanupFinished => ActionView::CleanupFinished,
            FrameAction::QueryWindow => ActionView::QueryWindow,
            FrameAction::RecreateSwapchain { config } => ActionView::RecreateSwapchain { config },
            FrameAction::RebuildResources { pipeline, framebuffers } => {
                ActionView::RebuildResources { pipeline, framebuffers: framebuffers@ }
            },
            FrameAction::AcquireImage => ActionView::AcquireImage,
            FrameAction::RecordScene { image, commands } => ActionView::RecordScene {
                image,
                commands: commands@,
            },
            FrameAction::FrameReady { image } => ActionView::FrameReady { image },
            FrameAction::Submit { image, join_previous } => ActionView::Submit {
                image,
                join_previous,
            },
            FrameAction::Completed => ActionView::Completed,
            FrameAction::Failed(e) => ActionView::Failed(e),
        }
    }
}

/// A swapchain and what is built for it, as a mathematical value.
pub struct ResourcesView {
    /// Parameters of the swapchain.
    pub swapchain: SwapchainConfig,
    /// Sizes of the images of the swapchain, in swapchain order.
    pub images: Seq<Extent>,
    pub pipeline: Pipeline,
    pub framebuffers: Seq<Framebuffer>,
}

impl ResourcesView {
    /// The resources for a swapchain with the given images.
    pub open spec fn for_swapchain(swapchain: SwapchainConfig, images: Seq<Extent>) -> Self {
        ResourcesView {
            swapchain,
            images,
            pipeline: spec_pipeline(images[0]),
            framebuffers: spec_framebuffers(images),
        }
    }

    /// There is at least one image, all images have one size, the viewport
    /// of the pipeline has that size, and there is one framebuffer per
    /// image.
    pub open spec fn wf(self) -> bool {
        &&& self.images.len() > 0
        &&& same_dimensions(self.images)
        &&& self == Self::for_swapchain(self.swapchain, self.images)
    }
}

/// The state of a renderer as a mathematical value.
pub struct RendererView {
    pub render_pass: RenderPass,
    /// The swapchain in use and what is built for it.
    pub current: ResourcesView,
    /// A recreated swapchain whose pipeline and framebuffers are being
    /// built.
    pub pending: Option<ResourcesView>,
    /// The swapchain must be recreated before the next image is acquired.
    pub recreate_swapchain: bool,
    /// The image of the frame in flight: the last frame that was submitted
    /// with success, as long as no later submission has failed.
    pub previous_frame: Option<usize>,
    pub phase: Phase,
}

impl RendererView {
    /// The state of a new renderer on a swapchain with the given images.
    pub open spec fn initial(swapchain: SwapchainConfig, images: Seq<Extent>) -> RendererView {
        RendererView {
            render_pass: spec_render_pass(swapchain.format),
            current: ResourcesView::for_swapchain(swapchain, images),
            pending: None,
            recreate_swapchain: false,
            previous_frame: None,
            phase: Phase::Idle,
        }
    }

    /// The resources in use fit their swapchain, the render pass fits its
    /// format, a swapchain is pending while its resources are being built,
    /// and an image held by the frame in progress is one of the
    /// swapchain's.
    pub open spec fn wf(self) -> bool {
        &&& self.current.wf()
        &&& self.render_pass == spec_render_pass(self.current.swapchain.format)
        &&& self.phase is AwaitingResources ==> self.pending is Some
        &&& self.pending matches Some(pending) ==> {
            &&& pending.wf()
            &&& pending.swapchain.format == self.current.swapchain.format
        }
        &&& self.phase matches Phase::AwaitingSwapchain { config } ==> config.format
            == self.current.swapchain.format
        &&& self.phase matches Phase::Acquired { image } ==> image < self.current.images.len()
        &&& self.phase matches Phase::Recording { image } ==> image < self.current.images.len()
        &&& self.phase matches Phase::Submitted { image } ==> image < self.current.images.len()
    }

    /// The pipeline in use.
    pub open spec fn pipeline(self) -> Pipeline {
        self.current.pipeline
    }

    /// The frame in progress is given up.
    pub open spec fn fail(self, error: RenderError) -> (RendererView, ActionView) {
        (RendererView { phase: Phase::Idle, pending: None, ..self }, ActionView::Failed(error))
    }

    /// What precedes the acquisition of an image: if the swapchain is to be
    /// recreated, that comes first and starts with the size of the window.
    pub open spec fn prepare(self) -> (RendererView, ActionView) {
        if self.recreate_swapchain {
            (
                RendererView { phase: Phase::AwaitingWindow, pending: None, ..self },
                ActionView::QueryWindow,
            )
        } else {
            (
                RendererView { phase: Phase::AwaitingImage, pending: None, ..self },
                ActionView::AcquireImage,
            )
        }
    }

    /// A frame starts.  Whatever frame was in progress is dropped.  If a
    /// frame is in flight, its finished work is retired first.
    pub open spec fn begin(self) -> (RendererView, ActionView) {
        if self.previous_frame is Some {
            (
                RendererView { phase: Phase::CleaningUp, pending: None, ..self },
                ActionView::CleanupFinished,
            )
        } else {
            self.prepare()
        }
    }

    /// The window has reported its size.  The swapchain is recreated at
    /// that size and is otherwise unchanged.
    pub open spec fn window_dimensions(self, dimensions: Option<Extent>) -> (
        RendererView,
        ActionView,
    ) {
        match dimensions {
            Some(dimensions) => {
                let config = self.current.swapchain.spec_recreate(dimensions);
                (
                    RendererView { phase: Phase::AwaitingSwapchain { config }, ..self },
                    ActionView::RecreateSwapchain { config },
                )
            },
            None => self.fail(RenderError::WindowClosed),
        }
    }

    /// The device has answered the request to recreate the swapchain with
    /// `config`.  Pipeline and framebuffers for the new images are built
    /// next.
    pub open spec fn swapchain_recreated(
        self,
        config: SwapchainConfig,
        images: Option<Seq<Extent>>,
    ) -> (RendererView, ActionView) {
        match images {
            Some(images) => {
                if images.len() == 0 {
                    self.fail(RenderError::SwapchainCreationError)
                } else {
                    match spec_create_framebuffers(images) {
                        Ok(framebuffers) => (
                            RendererView {
                                phase: Phase::AwaitingResources,
                                pending: Some(ResourcesView::for_swapchain(config, images)),
                                ..self
                            },
                            ActionView::RebuildResources {
                                pipeline: spec_pipeline(images[0]),
                                framebuffers,
                            },
                        ),
                        Err(e) => self.fail(RenderError::FramebufferCreationError(e)),
                    }
                }
            },
            None => self.fail(RenderError::SwapchainCreationError),
        }
    }

    /// The device has answered the request to build pipeline and
    /// framebuffers.  On success the new swapchain and its resources
    /// replace the old ones together, and the image is acquired next.
    pub open spec fn resources_rebuilt(self, result: Result<(), RebuildError>) -> (
        RendererView,
        ActionView,
    ) {
        match result {
            Ok(()) => (
                RendererView {
                    current: self.pending->0,
                    pending: None,
                    recreate_swapchain: false,
                    phase: Phase::AwaitingImage,
                    ..self
                },
                ActionView::AcquireImage,
            ),
            Err(RebuildError::Pipeline) => self.fail(RenderError::GraphicsPipelineCreationError),
            Err(RebuildError::Framebuffers) => self.fail(
                RenderError::FramebufferCreationError(FramebufferCreationError::DeviceError),
            ),
        }
    }

    /// The device has answered the request for an image.  A stale swapchain
    /// is noted for the next frame.
    pub open spec fn image_acquired(
        self,
        result: Result<usize, AcquireError>,
        scene: Option<Seq<Object>>,
    ) -> (RendererView, ActionView) {
        match result {
            Ok(image) => {
                if image < self.current.images.len() {
                    (
                        RendererView { phase: Phase::Acquired { image }, ..self },
                        ActionView::RecordScene { image, commands: frame_commands(image, scene) },
                    )
                } else {
                    self.fail(RenderError::ImageOutOfRange)
                }
            },
            Err(AcquireError::OutOfDate) => (
                RendererView { recreate_swapchain: true, phase: Phase::Idle, ..self },
                ActionView::Failed(RenderError::AcquireError(AcquireError::OutOfDate)),
            ),
            Err(e) => self.fail(RenderError::AcquireError(e)),
        }
    }

    /// The recording of the scene for `image` has ended.
    pub open spec fn scene_recorded(self, image: usize, result: Result<(), EncodingError>) -> (
        RendererView,
        ActionView,
    ) {
        match result {
            Ok(()) => (
                RendererView { phase: Phase::Recording { image }, ..self },
                ActionView::FrameReady { image },
            ),
            Err(e) => self.fail(RenderError::EncodingError(e)),
        }
    }

    /// The frame recorded for `image` is to be submitted: behind the frame
    /// in flight, if there is one.
    pub open spec fn execute(self, image: usize) -> (RendererView, ActionView) {
        (
            RendererView { phase: Phase::Submitted { image }, ..self },
            ActionView::Submit { image, join_previous: self.previous_frame is Some },
        )
    }

    /// The submission of the frame that drew to `image` has ended.  On
    /// success it becomes the frame in flight.  A failure before anything
    /// was submitted leaves the frame in flight untouched; a later failure
    /// leaves no frame in flight.  A stale swapchain is noted for the next
    /// frame.
    pub open spec fn frame_submitted(self, image: usize, outcome: SubmitOutcome) -> (
        RendererView,
        ActionView,
    ) {
        match outcome {
            SubmitOutcome::Presented => (
                RendererView { previous_frame: Some(image), phase: Phase::Idle, ..self },
                ActionView::Completed,
            ),
            SubmitOutcome::BuildFailed => self.fail(RenderError::BuildError),
            SubmitOutcome::ExecuteFailed => (
                RendererView { previous_frame: None, phase: Phase::Idle, ..self },
                ActionView::Failed(RenderError::CommandBufferExecError),
            ),
            SubmitOutcome::FlushFailed(FlushError::OutOfDate) => (
                RendererView {
                    previous_frame: None,
                    recreate_swapchain: true,
                    phase: Phase::Idle,
                    ..self
                },
                ActionView::Failed(RenderError::FlushError(FlushError::OutOfDate)),
            ),
            SubmitOutcome::FlushFailed(e) => (
                RendererView { previous_frame: None, phase: Phase::Idle, ..self },
                ActionView::Failed(RenderError::FlushError(e)),
            ),
        }
    }
}

/// The transition of the renderer: the state after `event`, and what the
/// renderer asks for in answer.  `scene` is the active scene at that moment.
///
/// A frame can be started at any time.  Every other event is the answer to
/// one request and is accepted only while that request is open; otherwise
/// nothing changes and the answer is `Failed(UnexpectedEvent)`.
pub open spec fn next(s: RendererView, event: EventView, scene: Option<Seq<Object>>) -> (
    RendererView,
    ActionView,
) {
    match (event, s.phase) {
        (EventView::RenderScene, _) => s.begin(),
        (EventView::CleanedUp, Phase::CleaningUp) => s.prepare(),
        (EventView::WindowDimensions(dimensions), Phase::AwaitingWindow) => s.window_dimensions(
            dimensions,
        ),
        (
            EventView::SwapchainRecreated(images),
            Phase::AwaitingSwapchain { config },
        ) => s.swapchain_recreated(config, images),
        (EventView::ResourcesRebuilt(result), Phase::AwaitingResources) => s.resources_rebuilt(
            result,
        ),
        (EventView::ImageAcquired(result), Phase::AwaitingImage) => s.image_acquired(
            result,
            scene,
        ),
        (EventView::SceneRecorded(result), Phase::Acquired { image }) => s.scene_recorded(
            image,
            result,
        ),
        (EventView::ExecuteCommandBuffer, Phase::Recording { image }) => s.execute(image),
        (EventView::FrameSubmitted(outcome), Phase::Submitted { image }) => s.frame_submitted(
            image,
            outcome,
        ),
        _ => (s, ActionView::Failed(RenderError::UnexpectedEvent)),
    }
}

/// The state the renderer is in when it is told that the recreate flag
/// must be set.
pub open spec fn force_recreate(s: RendererView) -> RendererView {
    RendererView { recreate_swapchain: true, ..s }
}

/// Every transition keeps a well-formed state well-formed.
pub proof fn lemma_next_preserves_wf(s: RendererView, event: EventView, scene: Option<Seq<Object>>)
    requires
        s.wf(),
    ensures
        next(s, event, scene).0.wf(),
{
    match (event, s.phase) {
        (EventView::SwapchainRecreated(Some(images)), Phase::AwaitingSwapchain { config }) => {
            if images.len() > 0 && same_dimensions(images) {
                assert(ResourcesView::for_swapchain(config, images).wf());
            }
        },
        _ => {},
    }
}

/// A swapchain and what is built for it.
struct Resources {
    swapchain: SwapchainConfig,
    images: Vec<Extent>,
    pipeline: Pipeline,
    framebuffers: Vec<Framebuffer>,
}

impl View for Resources {
    type V = ResourcesView;

    closed spec fn view(&self) -> ResourcesView {
        ResourcesView {
            swapchain: self.swapchain,
            images: self.images@,
            pipeline: self.pipeline,
            framebuffers: self.framebuffers@,
        }
    }
}

impl Resources {
    /// Describes pipeline and framebuffers for a swapchain with the given
    /// images.
    fn for_swapchain(swapchain: SwapchainConfig, images: Vec<Extent>) -> (result: Result<
        Resources,
        FramebufferCreationError,
    >)
        requires
            images.len() > 0,
        ensures
            match result {
                Ok(resources) => {
                    &&& same_dimensions(images@)
                    &&& resources@ == ResourcesView::for_swapchain(swapchain, images@)
                    &&& resources@.wf()
                },
                Err(e) => spec_create_framebuffers(images@) == Err::<
                    Seq<Framebuffer>,
                    FramebufferCreationError,
                >(e),
            },
    {
        match create_framebuffers(&images) {
            Ok(framebuffers) => {
                let pipeline = create_pipeline(images[0]);
                Ok(Resources { swapchain, images, pipeline, framebuffers })
            },
            Err(e) => Err(e),
        }
    }

    /// The descriptions of the framebuffers, in image order.
    fn framebuffers(&self) -> (framebuffers: Vec<Framebuffer>)
        ensures
            framebuffers@ == self@.framebuffers,
    {
        let mut framebuffers: Vec<Framebuffer> = Vec::new();
        let mut i: usize = 0;
        while i < self.framebuffers.len()
            invariant
                i <= self.framebuffers.len(),
                framebuffers@ == self.framebuffers@.take(i as int),
            decreases self.framebuffers.len() - i,
        {
            framebuffers.push(self.framebuffers[i]);
            i += 1;
        }
        framebuffers
    }
}

/// The renderer.  Its view is its state as a [`RendererView`], which is
/// always well-formed.
pub struct Renderer {
    render_pass: RenderPass,
    current: Resources,
    pending: Option<Resources>,
    recreate_swapchain: bool,
    previous_frame: Option<usize>,
    phase: Phase,
}

impl View for Renderer {
    type V = RendererView;

    closed spec fn view(&self) -> RendererView {
        RendererView {
            render_pass: self.render_pass,
            current: self.current@,
            pending: match self.pending {
                Some(pending) => Some(pending@),
                None => None,
            },
            recreate_swapchain: self.recreate_swapchain,
            previous_frame: self.previous_frame,
            phase: self.phase,
        }
    }
}

impl Renderer {
    #[verifier::type_invariant]
    spec fn inv(self) -> bool {
        self@.wf()
    }

    /// A renderer for a swapchain that was created with `swapchain` and
    /// holds images of the given sizes.  No frame is in progress or in
    /// flight, and the swapchain is taken to fit.
    ///
    /// A swapchain without images is refused as a failed swapchain; images
    /// of differing sizes are refused because no depth attachment fits all
    /// of them.
    pub fn new(swapchain: SwapchainConfig, images: Vec<Extent>) -> (result: Result<
        Renderer,
        RendererCreationError,
    >)
        ensures
            result is Ok <==> images@.len() > 0 && same_dimensions(images@),
            result matches Ok(renderer) ==> renderer@ == RendererView::initial(swapchain, images@)
                && renderer@.wf(),
            result matches Err(e) ==> if images@.len() == 0 {
                e == RendererCreationError::SwapchainCreationError
            } else {
                spec_create_framebuffers(images@) matches Err(cause) && e
                    == RendererCreationError::FramebufferCreationError(cause)
            },
    {
        if images.len() == 0 {
            return Err(RendererCreationError::SwapchainCreationError);
        }
        let render_pass = create_renderpass(swapchain.format);
        match Resources::for_swapchain(swapchain, images) {
            Ok(current) => Ok(
                Renderer {
                    render_pass,
                    current,
                    pending: None,
                    recreate_swapchain: false,
                    previous_frame: None,
                    phase: Phase::Idle,
                },
            ),
            Err(e) => Err(RendererCreationError::FramebufferCreationError(e)),
        }
    }

    /// Notes that the swapchain no longer fits the window: the next frame
    /// recreates it before it acquires an image.  Nothing else changes.
    pub fn force_recreate_swapchain(&mut self)
        ensures
            final(self)@ == force_recreate(old(self)@),
            final(self)@.wf(),
    {
        proof {
            use_type_invariant(&*self);
        }
        self.recreate_swapchain = true;
    }

    /// Whether the next frame recreates the swapchain first.
    pub fn recreate_pending(&self) -> (pending: bool)
        ensures
            pending == self@.recreate_swapchain,
    {
        self.recreate_swapchain
    }

    /// Where the renderer stands within a frame.
    pub fn phase(&self) -> (phase: Phase)
        ensures
            phase == self@.phase,
    {
        self.phase
    }

    /// The image of the frame in flight, if there is one.
    pub fn previous_frame(&self) -> (frame: Option<usize>)
        ensures
            frame == self@.previous_frame,
    {
        self.previous_frame
    }

    /// The parameters of the swapchain in use.
    pub fn swapchain(&self) -> (config: SwapchainConfig)
        ensures
            config == self@.current.swapchain,
    {
        self.current.swapchain
    }

    /// The number of images of the swapchain in use.
    pub fn image_count(&self) -> (count: usize)
        ensures
            count == self@.current.images.len(),
    {
        self.current.images.len()
    }

    /// The render pass.
    pub fn render_pass(&self) -> (render_pass: RenderPass)
        ensures
            render_pass == self@.render_pass,
            render_pass == spec_render_pass(self@.current.swapchain.format),
    {
        proof {
            use_type_invariant(self);
        }
        self.render_pass
    }

    /// The pipeline in use.
    pub fn pipeline(&self) -> (pipeline: Pipeline)
        ensures
            pipeline == self@.pipeline(),
    {
        self.current.pipeline
    }

    /// The framebuffer of the image at position `image_num` of the
    /// swapchain.
    pub fn framebuffer(&self, image_num: usize) -> (framebuffer: Framebuffer)
        requires
            image_num < self@.current.images.len(),
        ensures
            framebuffer == self@.current.framebuffers[image_num as int],
            framebuffer == spec_framebuffer(self@.current.images, image_num as int),
    {
        proof {
            use_type_invariant(self);
        }
        self.current.framebuffers[image_num]
    }
}

impl Renderer {
    /// Gives up the frame in progress.
    fn fail(&mut self, error: RenderError) -> (action: FrameAction)
        ensures
            final(self)@ == old(self)@.fail(error).0,
            action@ == old(self)@.fail(error).1,
    {
        proof {
            use_type_invariant(&*self);
        }
        self.phase = Phase::Idle;
        self.pending = None;
        FrameAction::Failed(error)
    }

    /// Turns to the acquisition of an image, behind the recreation of the
    /// swapchain where that is due.
    fn prepare(&mut self) -> (action: FrameAction)
        ensures
            final(self)@ == old(self)@.prepare().0,
            action@ == old(self)@.prepare().1,
    {
        proof {
            use_type_invariant(&*self);
        }
        self.phase = Phase::Idle;
        self.pending = None;
        if self.recreate_swapchain {
            self.phase = Phase::AwaitingWindow;
            FrameAction::QueryWindow
        } else {
            self.phase = Phase::AwaitingImage;
            FrameAction::AcquireImage
        }
    }

    /// Starts a frame.
    fn begin(&mut self) -> (action: FrameAction)
        ensures
            final(self)@ == old(self)@.begin().0,
            action@ == old(self)@.begin().1,
    {
        proof {
            use_type_invariant(&*self);
        }
        if self.previous_frame.is_some() {
            self.phase = Phase::Idle;
            self.pending = None;
            self.phase = Phase::CleaningUp;
            FrameAction::CleanupFinished
        } else {
            self.prepare()
        }
    }
}

impl Renderer {
    /// Takes the size of the window and asks for the swapchain at that
    /// size.
    fn window_dimensions(&mut self, dimensions: Option<Extent>) -> (action: FrameAction)
        ensures
            final(self)@ == old(self)@.window_dimensions(dimensions).0,
            action@ == old(self)@.window_dimensions(dimensions).1,
    {
        proof {
            use_type_invariant(&*self);
        }
        match dimensions {
            Some(dimensions) => {
                let config = self.current.swapchain.recreate(dimensions);
                self.phase = Phase::AwaitingSwapchain { config };
                FrameAction::RecreateSwapchain { config }
            },
            None => self.fail(RenderError::WindowClosed),
        }
    }

    /// Takes the images of the recreated swapchain and asks for the
    /// resources that fit them.
    fn swapchain_recreated(&mut self, config: SwapchainConfig, images: Option<Vec<Extent>>) -> (action:
        FrameAction)
        requires
            config.format == old(self)@.current.swapchain.format,
        ensures
            final(self)@ == old(self)@.swapchain_recreated(
                config,
                match images {
                    Some(images) => Some(images@),
                    None => None,
                },
            ).0,
            action@ == old(self)@.swapchain_recreated(
                config,
                match images {
                    Some(images) => Some(images@),
                    None => None,
                },
            ).1,
    {
        proof {
            use_type_invariant(&*self);
        }
        match images {
            Some(images) => {
                if images.len() == 0 {
                    return self.fail(RenderError::SwapchainCreationError);
                }
                match Resources::for_swapchain(config, images) {
                    Ok(pending) => {
                        let pipeline = pending.pipeline;
                        let framebuffers = pending.framebuffers();
                        self.pending = Some(pending);
                        self.phase = Phase::AwaitingResources;
                        FrameAction::RebuildResources { pipeline, framebuffers }
                    },
                    Err(e) => self.fail(RenderError::FramebufferCreationError(e)),
                }
            },
            None => self.fail(RenderError::SwapchainCreationError),
        }
    }
}

impl Renderer {
    /// Takes the outcome of building pipeline and framebuffers; on success
    /// the pending swapchain becomes the one in use.
    fn resources_rebuilt(&mut self, result: Result<(), RebuildError>) -> (action: FrameAction)
        requires
            old(self)@.phase is AwaitingResources,
        ensures
            final(self)@ == old(self)@.resources_rebuilt(result).0,
            action@ == old(self)@.resources_rebuilt(result).1,
    {
        proof {
            use_type_invariant(&*self);
        }
        match result {
            Ok(()) => {
                self.phase = Phase::Idle;
                let mut pending: Option<Resources> = None;
                core::mem::swap(&mut self.pending, &mut pending);
                match pending {
                    Some(resources) => {
                        self.current = resources;
                        self.recreate_swapchain = false;
                        self.phase = Phase::AwaitingImage;
                        FrameAction::AcquireImage
                    },
                    None => {
                        // While resources are being built a swapchain is pending.
                        proof {
                            assert(false);
                        }
                        FrameAction::AcquireImage
                    },
                }
            },
            Err(RebuildError::Pipeline) => self.fail(RenderError::GraphicsPipelineCreationError),
            Err(RebuildError::Framebuffers) => self.fail(
                RenderError::FramebufferCreationError(FramebufferCreationError::DeviceError),
            ),
        }
    }

    /// Takes the outcome of the acquisition; with an image, records the
    /// scene for it.
    fn image_acquired(
        &mut self,
        result: Result<usize, AcquireError>,
        asset_manager: &AssetManager,
    ) -> (action: FrameAction)
        ensures
            final(self)@ == old(self)@.image_acquired(result, asset_manager.scene()).0,
            action@ == old(self)@.image_acquired(result, asset_manager.scene()).1,
    {
        proof {
            use_type_invariant(&*self);
        }
        match result {
            Ok(image) => {
                if image < self.current.images.len() {
                    let commands = add_scene_commands(image, asset_manager.active_scene());
                    self.phase = Phase::Acquired { image };
                    FrameAction::RecordScene { image, commands }
                } else {
                    self.fail(RenderError::ImageOutOfRange)
                }
            },
            Err(AcquireError::OutOfDate) => {
                self.recreate_swapchain = true;
                self.phase = Phase::Idle;
                FrameAction::Failed(RenderError::AcquireError(AcquireError::OutOfDate))
            },
            Err(e) => self.fail(RenderError::AcquireError(e)),
        }
    }

    /// Takes the outcome of the submission.
    fn submission_ended(&mut self, image: usize, outcome: SubmitOutcome) -> (action: FrameAction)
        ensures
            final(self)@ == old(self)@.frame_submitted(image, outcome).0,
            action@ == old(self)@.frame_submitted(image, outcome).1,
    {
        proof {
            use_type_invariant(&*self);
        }
        match outcome {
            SubmitOutcome::Presented => {
                self.previous_frame = Some(image);
                self.phase = Phase::Idle;
                FrameAction::Completed
            },
            SubmitOutcome::BuildFailed => self.fail(RenderError::BuildError),
            SubmitOutcome::ExecuteFailed => {
                self.previous_frame = None;
                self.phase = Phase::Idle;
                FrameAction::Failed(RenderError::CommandBufferExecError)
            },
            SubmitOutcome::FlushFailed(FlushError::OutOfDate) => {
                self.previous_frame = None;
                self.recreate_swapchain = true;
                self.phase = Phase::Idle;
                FrameAction::Failed(RenderError::FlushError(FlushError::OutOfDate))
            },
            SubmitOutcome::FlushFailed(e) => {
                self.previous_frame = None;
                self.phase = Phase::Idle;
                FrameAction::Failed(RenderError::FlushError(e))
            },
        }
    }
}

impl Renderer {
    /// Tells the renderer what happened and returns what it asks for next.
    /// The scene is read from `asset_manager` when an image has been
    /// acquired, and at no other time.
    pub fn step(&mut self, event: FrameEvent, asset_manager: &AssetManager) -> (action:
        FrameAction)
        ensures
            final(self)@ == next(old(self)@, event@, asset_manager.scene()).0,
            action@ == next(old(self)@, event@, asset_manager.scene()).1,
            final(self)@.wf(),
    {
        proof {
            use_type_invariant(&*self);
            lemma_next_preserves_wf(self@, event@, asset_manager.scene());
        }
        let phase = self.phase;
        match event {
            FrameEvent::RenderScene => self.begin(),
            FrameEvent::CleanedUp => match phase {
                Phase::CleaningUp => self.prepare(),
                _ => FrameAction::Failed(RenderError::UnexpectedEvent),
            },
            FrameEvent::WindowDimensions(dimensions) => match phase {
                Phase::AwaitingWindow => self.window_dimensions(dimensions),
                _ => FrameAction::Failed(RenderError::UnexpectedEvent),
            },
            FrameEvent::SwapchainRecreated(images) => match phase {
                Phase::AwaitingSwapchain { config } => self.swapchain_recreated(config, images),
                _ => FrameAction::Failed(RenderError::UnexpectedEvent),
            },
            FrameEvent::ResourcesRebuilt(result) => match phase {
                Phase::AwaitingResources => self.resources_rebuilt(result),
                _ => FrameAction::Failed(RenderError::UnexpectedEvent),
            },
            FrameEvent::ImageAcquired(result) => match phase {
                Phase::AwaitingImage => self.image_acquired(result, asset_manager),
                _ => FrameAction::Failed(RenderError::UnexpectedEvent),
            },
            FrameEvent::SceneRecorded(result) => match phase {
                Phase::Acquired { image } => match result {
                    Ok(()) => {
                        self.phase = Phase::Recording { image };
                        FrameAction::FrameReady { image }
                    },
                    Err(e) => self.fail(RenderError::EncodingError(e)),
                },
                _ => FrameAction::Failed(RenderError::UnexpectedEvent),
            },
            FrameEvent::ExecuteCommandBuffer => match phase {
                Phase::Recording { image } => {
                    self.phase = Phase::Submitted { image };
                    FrameAction::Submit { image, join_previous: self.previous_frame.is_some() }
                },
                _ => FrameAction::Failed(RenderError::UnexpectedEvent),
            },
            FrameEvent::FrameSubmitted(outcome) => match phase {
                Phase::Submitted { image } => self.submission_ended(image, outcome),
                _ => FrameAction::Failed(RenderError::UnexpectedEvent),
            },
        }
    }

    /// Starts a frame: the first thing to do for it is returned, and every
    /// later one by [`Renderer::step`] in answer to the outcome of the one
    /// before.  The frame is recorded when `FrameReady` comes back.
    pub fn render_scene(&mut self, asset_manager: &AssetManager) -> (action: FrameAction)
        ensures
            final(self)@ == old(self)@.begin().0,
            action@ == old(self)@.begin().1,
            final(self)@.wf(),
    {
        self.step(FrameEvent::RenderScene, asset_manager)
    }

    /// Asks for the submission of the recorded frame.  Where no frame is
    /// recorded, nothing changes and the answer is
    /// `Failed(UnexpectedEvent)`.
    pub fn execute_command_buffer(&mut self) -> (action: FrameAction)
        ensures
            final(self)@ == next(old(self)@, EventView::ExecuteCommandBuffer, None).0,
            action@ == next(old(self)@, EventView::ExecuteCommandBuffer, None).1,
            old(self)@.phase matches Phase::Recording { image } ==> action@ == (ActionView::Submit {
                image,
                join_previous: old(self)@.previous_frame is Some,
            }),
            !(old(self)@.phase is Recording) ==> action@ == ActionView::Failed(
                RenderError::UnexpectedEvent,
            ) && final(self)@ == old(self)@,
            final(self)@.wf(),
    {
        let no_scene = AssetManager::new();
        self.step(FrameEvent::ExecuteCommandBuffer, &no_scene)
    }

    /// Takes the outcome of the submission that was asked for.  Where none
    /// was, nothing changes and the answer is `Failed(UnexpectedEvent)`.
    pub fn frame_submitted(&mut self, outcome: SubmitOutcome) -> (action: FrameAction)
        ensures
            final(self)@ == next(old(self)@, EventView::FrameSubmitted(outcome), None).0,
            action@ == next(old(self)@, EventView::FrameSubmitted(outcome), None).1,
            old(self)@.phase matches Phase::Submitted { image } ==> action@ == old(
                self,
            )@.frame_submitted(image, outcome).1,
            !(old(self)@.phase is Submitted) ==> action@ == ActionView::Failed(
                RenderError::UnexpectedEvent,
            ) && final(self)@ == old(self)@,
            final(self)@.wf(),
    {
        let no_scene = AssetManager::new();
        self.step(FrameEvent::FrameSubmitted(outcome), &no_scene)
    }
}

} // verus!
