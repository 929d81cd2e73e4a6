use render_core::camera::{refresh_active_cameras, Camera};
use render_core::errors::RenderError;
use render_core::frame::{FrameAction, FrameEvent, FrameLoop, FrameOutcome, FrameStage};
use render_core::swapchain::{Extent2D, SwapchainState};

fn extent(width: u32, height: u32) -> Extent2D {
    Extent2D { width, height }
}

#[test]
fn rotating_slot_follows_frame_count() {
    let mut s = SwapchainState::new(3, extent(800, 600));
    assert_eq!(s.current_image, 0);
    for frame in 0u64..7 {
        assert_eq!(s.current_image as u64, frame % 3);
        assert_eq!(s.frames_rendered, frame);
        s.advance();
    }
    assert_eq!(s.current_image, 7 % 3);
}

#[test]
fn single_image_swapchain_never_rotates_past_zero() {
    let mut s = SwapchainState::new(1, extent(64, 64));
    for _ in 0..4 {
        s.advance();
        assert_eq!(s.current_image, 0);
    }
    assert_eq!(s.frames_rendered, 4);
}

#[test]
fn recreation_keeps_lengths_and_leaks_nothing() {
    let mut s = SwapchainState::new(3, extent(800, 600));
    let first_gen: Vec<u64> = s
        .image_available
        .iter()
        .chain(s.rendering_finished.iter())
        .chain(s.may_begin_drawing.iter())
        .copied()
        .collect();

    let retired1 = s.recreate(extent(800, 600));
    assert_eq!(retired1, first_gen);
    let second_gen: Vec<u64> = s
        .image_available
        .iter()
        .chain(s.rendering_finished.iter())
        .chain(s.may_begin_drawing.iter())
        .copied()
        .collect();

    let retired2 = s.recreate(extent(800, 600));
    assert_eq!(retired2, second_gen);
    let third_gen: Vec<u64> = s
        .image_available
        .iter()
        .chain(s.rendering_finished.iter())
        .chain(s.may_begin_drawing.iter())
        .copied()
        .collect();

    // Identical lengths after both recreations over the unchanged extent.
    assert_eq!(s.image_available.len(), 3);
    assert_eq!(s.rendering_finished.len(), 3);
    assert_eq!(s.may_begin_drawing.len(), 3);
    assert_eq!(second_gen.len(), third_gen.len());

    // No duplicate resources: handles are unique within a generation and
    // across generations.
    let mut all: Vec<u64> = first_gen;
    all.extend(second_gen);
    all.extend(third_gen);
    let n = all.len();
    all.sort();
    all.dedup();
    assert_eq!(all.len(), n);
}

#[test]
fn acquire_out_of_date_forces_recreation_and_camera_refresh() {
    let frame = FrameLoop::frame_start();
    assert_eq!(frame.action(), FrameAction::Acquire);

    let (next, outcome) = frame.step(FrameEvent::AcquireOutOfDate).unwrap();
    assert_eq!(outcome, FrameOutcome::RecreateSwapchain);
    // The stale image index is never kept for submission.
    assert_eq!(next.acquired_image, None);
    assert_eq!(next.stage, FrameStage::AcquireImage);

    // Recreation pushes the new aspect ratio to every active camera
    // before the next frame begins.
    let new_aspect = (1024.0f32 / 768.0f32).to_bits();
    let old_aspect = (800.0f32 / 600.0f32).to_bits();
    let mut cameras = vec![
        Camera { is_active: true, aspect_bits: old_aspect },
        Camera { is_active: false, aspect_bits: old_aspect },
        Camera { is_active: true, aspect_bits: old_aspect },
    ];
    refresh_active_cameras(&mut cameras, new_aspect);
    assert_eq!(cameras[0].aspect_bits, new_aspect);
    assert_eq!(cameras[1].aspect_bits, old_aspect);
    assert_eq!(cameras[2].aspect_bits, new_aspect);
}

#[test]
fn present_out_of_date_forces_recreation() {
    let presenting = FrameLoop { stage: FrameStage::Present, acquired_image: Some(2) };
    let (next, outcome) = presenting.step(FrameEvent::PresentOutOfDate).unwrap();
    assert_eq!(outcome, FrameOutcome::RecreateSwapchain);
    assert_eq!(next.stage, FrameStage::Rotate);
}

#[test]
fn suboptimal_present_forces_recreation() {
    let presenting = FrameLoop { stage: FrameStage::Present, acquired_image: Some(0) };
    let (next, outcome) = presenting.step(FrameEvent::Presented { suboptimal: true }).unwrap();
    assert_eq!(outcome, FrameOutcome::RecreateSwapchain);
    assert_eq!(next.stage, FrameStage::Rotate);
}

#[test]
fn ordinary_frame_cycle() {
    let frame = FrameLoop::frame_start();
    assert_eq!(frame.action(), FrameAction::Acquire);

    let (frame, outcome) = frame.step(FrameEvent::ImageAcquired { image_index: 1 }).unwrap();
    assert_eq!(outcome, FrameOutcome::Proceed);
    assert_eq!(frame.action(), FrameAction::WaitAndResetFence);

    let (frame, outcome) = frame.step(FrameEvent::FenceReady).unwrap();
    assert_eq!(outcome, FrameOutcome::Proceed);
    assert_eq!(frame.action(), FrameAction::UpdateDescriptors);

    let (frame, outcome) = frame.step(FrameEvent::DescriptorsWritten).unwrap();
    assert_eq!(outcome, FrameOutcome::Proceed);
    assert_eq!(frame.action(), FrameAction::RecordAndSubmit { image_index: 1 });

    let (frame, outcome) = frame.step(FrameEvent::Submitted).unwrap();
    assert_eq!(outcome, FrameOutcome::Proceed);
    assert_eq!(frame.action(), FrameAction::Present { image_index: 1 });

    let (frame, outcome) = frame.step(FrameEvent::Presented { suboptimal: false }).unwrap();
    assert_eq!(outcome, FrameOutcome::Proceed);
    assert_eq!(frame.action(), FrameAction::RotateSlot);
}

#[test]
fn failures_abort_the_frame_with_their_classification() {
    let acquiring = FrameLoop::frame_start();
    assert_eq!(
        acquiring.step(FrameEvent::AcquireFailed),
        Err(RenderError::SynchronizationFailure)
    );

    let waiting = FrameLoop { stage: FrameStage::WaitFence, acquired_image: Some(0) };
    assert_eq!(waiting.step(FrameEvent::FenceFailed), Err(RenderError::SynchronizationFailure));

    let submitting = FrameLoop { stage: FrameStage::RecordAndSubmit, acquired_image: Some(0) };
    assert_eq!(submitting.step(FrameEvent::SubmitFailed), Err(RenderError::SubmissionFailure));

    let presenting = FrameLoop { stage: FrameStage::Present, acquired_image: Some(0) };
    assert_eq!(presenting.step(FrameEvent::PresentFailed), Err(RenderError::PresentationFailure));
    assert!(!RenderError::PresentationFailure.is_recoverable());
    assert!(RenderError::SurfaceInvalidated.is_recoverable());
}
