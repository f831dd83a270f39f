use ketch::encoder::{ClearColor, Command, DescriptorSet, PushConstants};
use ketch::error::{
    AcquireError, EncodingError, FlushError, FramebufferCreationError, RenderError,
    RendererCreationError,
};
use ketch::framebuffer::{DepthBuffer, Framebuffer};
use ketch::pipeline::{Pipeline, PrimitiveTopology};
use ketch::render_pass::{LoadOp, StoreOp};
use ketch::renderer::{FrameAction, FrameEvent, Phase, RebuildError, Renderer, SubmitOutcome};
use ketch::scene::{AssetManager, Mesh, Object, Scene};
use ketch::surface::{Extent, Format};
use ketch::swapchain::{PresentMode, SwapchainConfig};

const WINDOW: Extent = Extent { width: 600, height: 400 };
const RESIZED: Extent = Extent { width: 800, height: 500 };

fn config(extent: Extent) -> SwapchainConfig {
    SwapchainConfig {
        image_count: 2,
        format: Format { code: 44 },
        extent,
        present_mode: PresentMode::Fifo,
    }
}

fn renderer() -> Renderer {
    Renderer::new(config(WINDOW), vec![WINDOW, WINDOW]).unwrap()
}

fn pipeline(viewport: Extent) -> Pipeline {
    Pipeline { viewport, topology: PrimitiveTopology::TriangleList, depth_test: true, subpass: 0 }
}

fn framebuffers(extent: Extent, count: usize) -> Vec<Framebuffer> {
    let depth = DepthBuffer { dimensions: extent, format: Format { code: 124 } };
    (0..count).map(|i| Framebuffer { color_image: i, dimensions: extent, depth }).collect()
}

fn begin(framebuffer: usize) -> Command {
    Command::BeginRenderPass {
        framebuffer,
        color: ClearColor { red: 0, green: 0, blue: 0, alpha: 255 },
        depth: 65535,
    }
}

fn scene_with(mesh: Mesh) -> AssetManager {
    let mut scene = Scene::new();
    scene.add_object(Object { mesh: Some(mesh), light_source: false, uniform_scale: false });
    let mut assets = AssetManager::new();
    assets.set_active_scene(scene);
    assets
}

/// Runs one frame on a device that does its part and returns the commands
/// recorded for it.
fn render_frame(renderer: &mut Renderer, assets: &AssetManager, image: usize) -> Vec<Command> {
    let mut action = renderer.render_scene(assets);
    if action == FrameAction::CleanupFinished {
        action = renderer.step(FrameEvent::CleanedUp, assets);
    }
    assert_eq!(action, FrameAction::AcquireImage);
    let recorded = match renderer.step(FrameEvent::ImageAcquired(Ok(image)), assets) {
        FrameAction::RecordScene { image: target, commands } => {
            assert_eq!(target, image);
            commands
        }
        other => panic!("unexpected action: {:?}", other),
    };
    assert_eq!(
        renderer.step(FrameEvent::SceneRecorded(Ok(())), assets),
        FrameAction::FrameReady { image }
    );
    recorded
}

#[test]
fn new_renderer_is_idle_and_fits_its_swapchain() {
    let renderer = renderer();
    assert_eq!(renderer.phase(), Phase::Idle);
    assert!(!renderer.recreate_pending());
    assert_eq!(renderer.previous_frame(), None);
    assert_eq!(renderer.swapchain(), config(WINDOW));
    assert_eq!(renderer.image_count(), 2);
    assert_eq!(renderer.pipeline(), pipeline(WINDOW));
    assert_eq!(renderer.framebuffer(1), framebuffers(WINDOW, 2)[1]);
    let render_pass = renderer.render_pass();
    assert_eq!(render_pass.color.format, Format { code: 44 });
    assert_eq!(render_pass.color.load, LoadOp::Clear);
    assert_eq!(render_pass.depth.store, StoreOp::DontCare);
}

#[test]
fn renderer_refuses_swapchain_without_images() {
    assert_eq!(
        Renderer::new(config(WINDOW), vec![]).err(),
        Some(RendererCreationError::SwapchainCreationError)
    );
}

#[test]
fn renderer_refuses_images_of_differing_sizes() {
    assert_eq!(
        Renderer::new(config(WINDOW), vec![WINDOW, RESIZED]).err(),
        Some(RendererCreationError::FramebufferCreationError(
            FramebufferCreationError::AttachmentDimensionsIncompatible {
                expected: RESIZED,
                obtained: WINDOW,
            }
        ))
    );
}

#[test]
fn render_renders_empty_frame_without_error() {
    let mut renderer = renderer();
    let assets = AssetManager::new();
    let commands = render_frame(&mut renderer, &assets, 0);
    assert_eq!(commands, vec![begin(0), Command::EndRenderPass]);
    assert_eq!(
        renderer.execute_command_buffer(),
        FrameAction::Submit { image: 0, join_previous: false }
    );
    assert_eq!(
        renderer.step(FrameEvent::FrameSubmitted(SubmitOutcome::Presented), &assets),
        FrameAction::Completed
    );
    assert_eq!(renderer.previous_frame(), Some(0));
    assert_eq!(renderer.phase(), Phase::Idle);
}

#[test]
fn render_simple_cube_without_texture() {
    let mut renderer = renderer();
    let assets = scene_with(Mesh { id: 1, texture: None });
    let commands = render_frame(&mut renderer, &assets, 1);
    assert_eq!(
        commands,
        vec![
            begin(1),
            Command::UpdateUniforms { object: 0 },
            Command::DrawIndexed {
                mesh: 1,
                descriptor_set: DescriptorSet { sampled_image: None },
                push_constants: PushConstants { light_source: 0, uniform_scale: 0 },
            },
            Command::EndRenderPass,
        ]
    );
    assert_eq!(
        renderer.execute_command_buffer(),
        FrameAction::Submit { image: 1, join_previous: false }
    );
    assert_eq!(
        renderer.step(FrameEvent::FrameSubmitted(SubmitOutcome::Presented), &assets),
        FrameAction::Completed
    );
}

#[test]
fn render_simple_cube_with_texture() {
    let mut renderer = renderer();
    let assets = scene_with(Mesh { id: 1, texture: Some(9) });
    let commands = render_frame(&mut renderer, &assets, 0);
    assert_eq!(
        commands[2],
        Command::DrawIndexed {
            mesh: 1,
            descriptor_set: DescriptorSet { sampled_image: Some(9) },
            push_constants: PushConstants { light_source: 0, uniform_scale: 0 },
        }
    );
    assert_eq!(
        renderer.execute_command_buffer(),
        FrameAction::Submit { image: 0, join_previous: false }
    );
    assert_eq!(
        renderer.step(FrameEvent::FrameSubmitted(SubmitOutcome::Presented), &assets),
        FrameAction::Completed
    );
}

#[test]
fn second_frame_retires_and_joins_the_frame_in_flight() {
    let mut renderer = renderer();
    let assets = AssetManager::new();
    render_frame(&mut renderer, &assets, 0);
    renderer.execute_command_buffer();
    renderer.step(FrameEvent::FrameSubmitted(SubmitOutcome::Presented), &assets);

    assert_eq!(renderer.render_scene(&assets), FrameAction::CleanupFinished);
    assert_eq!(renderer.phase(), Phase::CleaningUp);
    assert_eq!(renderer.step(FrameEvent::CleanedUp, &assets), FrameAction::AcquireImage);
    renderer.step(FrameEvent::ImageAcquired(Ok(1)), &assets);
    renderer.step(FrameEvent::SceneRecorded(Ok(())), &assets);
    assert_eq!(renderer.previous_frame(), Some(0));
    assert_eq!(
        renderer.execute_command_buffer(),
        FrameAction::Submit { image: 1, join_previous: true }
    );
    assert_eq!(renderer.previous_frame(), Some(0));
    assert_eq!(
        renderer.step(FrameEvent::FrameSubmitted(SubmitOutcome::Presented), &assets),
        FrameAction::Completed
    );
    assert_eq!(renderer.previous_frame(), Some(1));
}

#[test]
fn forced_recreation_rebuilds_before_acquiring() {
    let mut renderer = renderer();
    let assets = AssetManager::new();
    renderer.force_recreate_swapchain();
    assert!(renderer.recreate_pending());

    assert_eq!(renderer.render_scene(&assets), FrameAction::QueryWindow);
    assert_eq!(
        renderer.step(FrameEvent::WindowDimensions(Some(RESIZED)), &assets),
        FrameAction::RecreateSwapchain { config: config(RESIZED) }
    );
    assert_eq!(
        renderer.step(
            FrameEvent::SwapchainRecreated(Some(vec![RESIZED, RESIZED, RESIZED])),
            &assets
        ),
        FrameAction::RebuildResources {
            pipeline: pipeline(RESIZED),
            framebuffers: framebuffers(RESIZED, 3),
        }
    );
    assert_eq!(renderer.pipeline(), pipeline(WINDOW));
    assert!(renderer.recreate_pending());
    assert_eq!(
        renderer.step(FrameEvent::ResourcesRebuilt(Ok(())), &assets),
        FrameAction::AcquireImage
    );
    assert!(!renderer.recreate_pending());
    assert_eq!(renderer.pipeline().viewport, RESIZED);
    assert_eq!(renderer.swapchain(), config(RESIZED));
    assert_eq!(renderer.image_count(), 3);
    assert_eq!(renderer.framebuffer(2), framebuffers(RESIZED, 3)[2]);
    assert_eq!(renderer.render_pass().color.format, Format { code: 44 });
}

#[test]
fn stale_swapchain_at_acquire_is_recoverable_and_sets_the_flag() {
    let mut renderer = renderer();
    let assets = AssetManager::new();
    assert_eq!(renderer.render_scene(&assets), FrameAction::AcquireImage);
    let action = renderer.step(FrameEvent::ImageAcquired(Err(AcquireError::OutOfDate)), &assets);
    let error = RenderError::AcquireError(AcquireError::OutOfDate);
    assert_eq!(action, FrameAction::Failed(error));
    assert!(error.is_recoverable());
    assert!(renderer.recreate_pending());
    assert_eq!(renderer.phase(), Phase::Idle);
    assert_eq!(renderer.render_scene(&assets), FrameAction::QueryWindow);
}

#[test]
fn other_acquire_errors_fail_the_frame_only() {
    let mut renderer = renderer();
    let assets = AssetManager::new();
    renderer.render_scene(&assets);
    let action = renderer.step(FrameEvent::ImageAcquired(Err(AcquireError::Timeout)), &assets);
    let error = RenderError::AcquireError(AcquireError::Timeout);
    assert_eq!(action, FrameAction::Failed(error));
    assert!(!error.is_recoverable());
    assert!(!renderer.recreate_pending());
    assert_eq!(renderer.render_scene(&assets), FrameAction::AcquireImage);
}

#[test]
fn acquired_image_must_belong_to_the_swapchain() {
    let mut renderer = renderer();
    let assets = AssetManager::new();
    renderer.render_scene(&assets);
    assert_eq!(
        renderer.step(FrameEvent::ImageAcquired(Ok(2)), &assets),
        FrameAction::Failed(RenderError::ImageOutOfRange)
    );
    assert_eq!(renderer.phase(), Phase::Idle);
}

#[test]
fn closed_window_fails_the_frame_and_keeps_the_flag() {
    let mut renderer = renderer();
    let assets = AssetManager::new();
    renderer.force_recreate_swapchain();
    renderer.render_scene(&assets);
    assert_eq!(
        renderer.step(FrameEvent::WindowDimensions(None), &assets),
        FrameAction::Failed(RenderError::WindowClosed)
    );
    assert!(RenderError::WindowClosed.is_recoverable());
    assert!(renderer.recreate_pending());
}

#[test]
fn failed_recreation_keeps_the_old_resources() {
    let assets = AssetManager::new();

    let mut renderer = renderer();
    renderer.force_recreate_swapchain();
    renderer.render_scene(&assets);
    renderer.step(FrameEvent::WindowDimensions(Some(RESIZED)), &assets);
    assert_eq!(
        renderer.step(FrameEvent::SwapchainRecreated(None), &assets),
        FrameAction::Failed(RenderError::SwapchainCreationError)
    );
    assert!(renderer.recreate_pending());
    assert_eq!(renderer.pipeline(), pipeline(WINDOW));

    renderer.render_scene(&assets);
    renderer.step(FrameEvent::WindowDimensions(Some(RESIZED)), &assets);
    assert_eq!(
        renderer.step(FrameEvent::SwapchainRecreated(Some(vec![])), &assets),
        FrameAction::Failed(RenderError::SwapchainCreationError)
    );

    renderer.render_scene(&assets);
    renderer.step(FrameEvent::WindowDimensions(Some(RESIZED)), &assets);
    assert_eq!(
        renderer.step(FrameEvent::SwapchainRecreated(Some(vec![RESIZED, WINDOW])), &assets),
        FrameAction::Failed(RenderError::FramebufferCreationError(
            FramebufferCreationError::AttachmentDimensionsIncompatible {
                expected: WINDOW,
                obtained: RESIZED,
            }
        ))
    );

    renderer.render_scene(&assets);
    renderer.step(FrameEvent::WindowDimensions(Some(RESIZED)), &assets);
    renderer.step(FrameEvent::SwapchainRecreated(Some(vec![RESIZED])), &assets);
    assert_eq!(
        renderer.step(FrameEvent::ResourcesRebuilt(Err(RebuildError::Pipeline)), &assets),
        FrameAction::Failed(RenderError::GraphicsPipelineCreationError)
    );
    assert_eq!(renderer.image_count(), 2);

    renderer.render_scene(&assets);
    renderer.step(FrameEvent::WindowDimensions(Some(RESIZED)), &assets);
    renderer.step(FrameEvent::SwapchainRecreated(Some(vec![RESIZED])), &assets);
    assert_eq!(
        renderer.step(FrameEvent::ResourcesRebuilt(Err(RebuildError::Framebuffers)), &assets),
        FrameAction::Failed(RenderError::FramebufferCreationError(
            FramebufferCreationError::DeviceError
        ))
    );
    assert!(renderer.recreate_pending());
    assert_eq!(renderer.pipeline(), pipeline(WINDOW));
    assert_eq!(renderer.swapchain(), config(WINDOW));
}

#[test]
fn encoding_error_aborts_the_frame() {
    let mut renderer = renderer();
    let assets = AssetManager::new();
    renderer.render_scene(&assets);
    renderer.step(FrameEvent::ImageAcquired(Ok(0)), &assets);
    assert_eq!(renderer.phase(), Phase::Acquired { image: 0 });
    assert_eq!(
        renderer.step(FrameEvent::SceneRecorded(Err(EncodingError::DescriptorSet)), &assets),
        FrameAction::Failed(RenderError::EncodingError(EncodingError::DescriptorSet))
    );
    assert_eq!(renderer.phase(), Phase::Idle);
    assert_eq!(
        renderer.execute_command_buffer(),
        FrameAction::Failed(RenderError::UnexpectedEvent)
    );
}

#[test]
fn stale_swapchain_at_present_sets_the_flag_and_empties_the_slot() {
    let mut renderer = renderer();
    let assets = AssetManager::new();
    render_frame(&mut renderer, &assets, 0);
    renderer.execute_command_buffer();
    renderer.frame_submitted(SubmitOutcome::Presented);
    render_frame(&mut renderer, &assets, 1);
    renderer.execute_command_buffer();
    assert_eq!(renderer.phase(), Phase::Submitted { image: 1 });
    let action = renderer.frame_submitted(SubmitOutcome::FlushFailed(FlushError::OutOfDate));
    assert_eq!(action, FrameAction::Failed(RenderError::FlushError(FlushError::OutOfDate)));
    assert!(RenderError::FlushError(FlushError::OutOfDate).is_recoverable());
    assert!(renderer.recreate_pending());
    assert_eq!(renderer.previous_frame(), None);
    assert_eq!(renderer.render_scene(&assets), FrameAction::QueryWindow);
}

#[test]
fn failed_submission_leaves_the_next_frame_possible() {
    let assets = AssetManager::new();
    let outcomes = [
        (SubmitOutcome::BuildFailed, RenderError::BuildError, Some(0)),
        (SubmitOutcome::ExecuteFailed, RenderError::CommandBufferExecError, None),
        (
            SubmitOutcome::FlushFailed(FlushError::DeviceLost),
            RenderError::FlushError(FlushError::DeviceLost),
            None,
        ),
    ];
    for (outcome, error, in_flight) in outcomes {
        let mut renderer = renderer();
        render_frame(&mut renderer, &assets, 0);
        renderer.execute_command_buffer();
        renderer.step(FrameEvent::FrameSubmitted(SubmitOutcome::Presented), &assets);
        render_frame(&mut renderer, &assets, 1);
        renderer.execute_command_buffer();
        assert_eq!(renderer.frame_submitted(outcome), FrameAction::Failed(error));
        assert!(!error.is_recoverable());
        assert_eq!(renderer.previous_frame(), in_flight);
        assert!(!renderer.recreate_pending());
        assert_eq!(renderer.phase(), Phase::Idle);
        let commands = render_frame(&mut renderer, &assets, 0);
        assert_eq!(commands.len(), 2);
    }
}

#[test]
fn answers_out_of_turn_change_nothing() {
    let mut renderer = renderer();
    let assets = AssetManager::new();
    let events = vec![
        FrameEvent::CleanedUp,
        FrameEvent::WindowDimensions(Some(RESIZED)),
        FrameEvent::SwapchainRecreated(Some(vec![RESIZED])),
        FrameEvent::ResourcesRebuilt(Ok(())),
        FrameEvent::ImageAcquired(Ok(0)),
        FrameEvent::SceneRecorded(Ok(())),
        FrameEvent::ExecuteCommandBuffer,
        FrameEvent::FrameSubmitted(SubmitOutcome::Presented),
    ];
    for event in events {
        assert_eq!(
            renderer.step(event, &assets),
            FrameAction::Failed(RenderError::UnexpectedEvent)
        );
        assert_eq!(renderer.phase(), Phase::Idle);
        assert_eq!(renderer.previous_frame(), None);
        assert!(!renderer.recreate_pending());
        assert_eq!(renderer.pipeline(), pipeline(WINDOW));
    }
}

#[test]
fn frame_can_be_restarted_in_any_phase() {
    let mut renderer = renderer();
    let assets = AssetManager::new();
    render_frame(&mut renderer, &assets, 0);
    assert_eq!(renderer.phase(), Phase::Recording { image: 0 });
    assert_eq!(renderer.render_scene(&assets), FrameAction::AcquireImage);
    assert_eq!(renderer.phase(), Phase::AwaitingImage);
}

#[test]
fn submission_outcome_out_of_turn_is_refused() {
    let mut renderer = renderer();
    assert_eq!(
        renderer.frame_submitted(SubmitOutcome::Presented),
        FrameAction::Failed(RenderError::UnexpectedEvent)
    );
    assert_eq!(renderer.previous_frame(), None);
    assert_eq!(
        renderer.execute_command_buffer(),
        FrameAction::Failed(RenderError::UnexpectedEvent)
    );
}
