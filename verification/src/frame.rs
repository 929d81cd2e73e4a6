use vstd::prelude::*;
use crate::errors::RenderError;

verus! {

/// The per-frame states of the frame synchronizer, in the order a frame
/// passes through them.
#[derive(Clone, Copy, Debug, PartialEq, Eq, Structural)]
pub enum FrameStage {
    AcquireImage,
    WaitFence,
    UpdateDescriptors,
    RecordAndSubmit,
    Present,
    Rotate,
}

/// What the driver reported back for the step just performed.
#[derive(Clone, Copy, Debug, PartialEq, Eq, Structural)]
pub enum FrameEvent {
    ImageAcquired { image_index: u32 },
    AcquireOutOfDate,
    AcquireFailed,
    FenceReady,
    FenceFailed,
    DescriptorsWritten,
    Submitted,
    SubmitFailed,
    Presented { suboptimal: bool },
    PresentOutOfDate,
    PresentFailed,
}

/// The GPU-side work one stage asks of the driver.
#[derive(Clone, Copy, Debug, PartialEq, Eq, Structural)]
pub enum FrameAction {
    /// Request the next presentable image, waiting on the current slot's
    /// `image_available` semaphore.
    Acquire,
    /// Block on the current slot's `may_begin_drawing` fence, then reset it.
    WaitAndResetFence,
    /// Republish the data bindings that changed this frame into the
    /// current frame's descriptor set.
    UpdateDescriptors,
    /// Record the command buffer for the acquired image and submit it,
    /// waiting on `image_available` and signalling `rendering_finished`
    /// plus the slot's fence.
    RecordAndSubmit { image_index: u32 },
    /// Present the acquired image, waiting on `rendering_finished`.
    Present { image_index: u32 },
    /// Advance the rotating slot index; the frame is complete.
    RotateSlot,
}

/// What the frame loop must do before performing the next stage's action.
#[derive(Clone, Copy, Debug, PartialEq, Eq, Structural)]
pub enum FrameOutcome {
    /// Go straight to the next stage.
    Proceed,
    /// First recreate the swapchain against the current surface extent and
    /// push the new aspect ratio into every active camera, then go to the
    /// next stage. Issued exactly for the out-of-date and suboptimal
    /// reports, which are expected and recoverable.
    RecreateSwapchain,
}

/// The frame synchronizer's position within one frame: the stage about to
/// be performed, and the image index acquired for this frame once
/// `AcquireImage` has succeeded.
#[derive(Clone, Copy, Debug, PartialEq, Eq, Structural)]
pub struct FrameLoop {
    pub stage: FrameStage,
    pub acquired_image: Option<u32>,
}

/// The events that can report the outcome of a given stage.
pub open spec fn event_fits(stage: FrameStage, e: FrameEvent) -> bool {
    match stage {
        FrameStage::AcquireImage => e is ImageAcquired || e is AcquireOutOfDate
            || e is AcquireFailed,
        FrameStage::WaitFence => e is FenceReady || e is FenceFailed,
        FrameStage::UpdateDescriptors => e is DescriptorsWritten,
        FrameStage::RecordAndSubmit => e is Submitted || e is SubmitFailed,
        FrameStage::Present => e is Presented || e is PresentOutOfDate || e is PresentFailed,
        FrameStage::Rotate => false,
    }
}

/// The error a failure report is classified as. Out-of-date and
/// suboptimal reports are not failures: they trigger recreation instead.
/// A failed acquisition or fence wait indicates device loss.
pub open spec fn fatal_error_of(e: FrameEvent) -> Option<RenderError> {
    match e {
        FrameEvent::AcquireFailed => Some(RenderError::SynchronizationFailure),
        FrameEvent::FenceFailed => Some(RenderError::SynchronizationFailure),
        FrameEvent::SubmitFailed => Some(RenderError::SubmissionFailure),
        FrameEvent::PresentFailed => Some(RenderError::PresentationFailure),
        _ => None,
    }
}

/// The driver reported the presentation surface as out of date or
/// suboptimal: the one expected, recoverable condition.
pub open spec fn reports_stale_surface(e: FrameEvent) -> bool {
    ||| e is AcquireOutOfDate
    ||| e is PresentOutOfDate
    ||| e matches FrameEvent::Presented { suboptimal } && suboptimal
}

impl FrameLoop {
    /// In every stage past acquisition (up to presentation) an image index
    /// is held.
    pub open spec fn wf(self) -> bool {
        match self.stage {
            FrameStage::WaitFence => self.acquired_image is Some,
            FrameStage::UpdateDescriptors => self.acquired_image is Some,
            FrameStage::RecordAndSubmit => self.acquired_image is Some,
            FrameStage::Present => self.acquired_image is Some,
            _ => true,
        }
    }

    /// The frame loop at the start of a frame, about to acquire an image.
    pub fn frame_start() -> (r: FrameLoop)
        ensures
            r.wf(),
            r.stage == FrameStage::AcquireImage,
            r.acquired_image is None,
    {
        FrameLoop { stage: FrameStage::AcquireImage, acquired_image: None }
    }

    /// The driver work the current stage asks for.
    pub open spec fn spec_action(self) -> FrameAction {
        match self.stage {
            FrameStage::AcquireImage => FrameAction::Acquire,
            FrameStage::WaitFence => FrameAction::WaitAndResetFence,
            FrameStage::UpdateDescriptors => FrameAction::UpdateDescriptors,
            FrameStage::RecordAndSubmit => FrameAction::RecordAndSubmit {
                image_index: self.acquired_image->Some_0,
            },
            FrameStage::Present => FrameAction::Present {
                image_index: self.acquired_image->Some_0,
            },
            FrameStage::Rotate => FrameAction::RotateSlot,
        }
    }

    pub fn action(&self) -> (r: FrameAction)
        requires
            self.wf(),
        ensures
            r == self.spec_action(),
    {
        match self.stage {
            FrameStage::AcquireImage => FrameAction::Acquire,
            FrameStage::WaitFence => FrameAction::WaitAndResetFence,
            FrameStage::UpdateDescriptors => FrameAction::UpdateDescriptors,
            FrameStage::RecordAndSubmit => FrameAction::RecordAndSubmit {
                image_index: match self.acquired_image {
                    Some(i) => i,
                    None => 0,
                },
            },
            FrameStage::Present => FrameAction::Present {
                image_index: match self.acquired_image {
                    Some(i) => i,
                    None => 0,
                },
            },
            FrameStage::Rotate => FrameAction::RotateSlot,
        }
    }

    /// Take the driver's report for the stage just performed and decide
    /// how the frame goes on.
    ///
    /// A failure report aborts the frame with its classified error — never
    /// swallowed, never retried here. An out-of-date report at acquisition
    /// restarts the frame at `AcquireImage` after recreation, so a stale
    /// image index is never used for submission; out-of-date or suboptimal
    /// at presentation recreates after the frame completes. Everything
    /// else advances to the next stage of the frame cycle.
    pub fn step(self, event: FrameEvent) -> (r: Result<(FrameLoop, FrameOutcome), RenderError>)
        requires
            self.wf(),
            event_fits(self.stage, event),
        ensures
            r is Err <==> fatal_error_of(event) is Some,
            r matches Err(err) ==> fatal_error_of(event) == Some(err),
            r matches Ok(next) ==> next.0.wf(),
            r matches Ok(next) ==> (next.1 == FrameOutcome::RecreateSwapchain
                <==> reports_stale_surface(event)),
            r == step_relation(self, event),
    {
        match event {
            FrameEvent::ImageAcquired { image_index } => Ok(
                (
                    FrameLoop {
                        stage: FrameStage::WaitFence,
                        acquired_image: Some(image_index),
                    },
                    FrameOutcome::Proceed,
                ),
            ),
            FrameEvent::AcquireOutOfDate => Ok(
                (
                    FrameLoop { stage: FrameStage::AcquireImage, acquired_image: None },
                    FrameOutcome::RecreateSwapchain,
                ),
            ),
            FrameEvent::AcquireFailed => Err(RenderError::SynchronizationFailure),
            FrameEvent::FenceReady => Ok(
                (
                    FrameLoop {
                        stage: FrameStage::UpdateDescriptors,
                        acquired_image: self.acquired_image,
                    },
                    FrameOutcome::Proceed,
                ),
            ),
            FrameEvent::FenceFailed => Err(RenderError::SynchronizationFailure),
            FrameEvent::DescriptorsWritten => Ok(
                (
                    FrameLoop {
                        stage: FrameStage::RecordAndSubmit,
                        acquired_image: self.acquired_image,
                    },
                    FrameOutcome::Proceed,
                ),
            ),
            FrameEvent::Submitted => Ok(
                (
                    FrameLoop { stage: FrameStage::Present, acquired_image: self.acquired_image },
                    FrameOutcome::Proceed,
                ),
            ),
            FrameEvent::SubmitFailed => Err(RenderError::SubmissionFailure),
            FrameEvent::Presented { suboptimal } => Ok(
                (
                    FrameLoop { stage: FrameStage::Rotate, acquired_image: None },
                    if suboptimal {
                        FrameOutcome::RecreateSwapchain
                    } else {
                        FrameOutcome::Proceed
                    },
                ),
            ),
            FrameEvent::PresentOutOfDate => Ok(
                (
                    FrameLoop { stage: FrameStage::Rotate, acquired_image: None },
                    FrameOutcome::RecreateSwapchain,
                ),
            ),
            FrameEvent::PresentFailed => Err(RenderError::PresentationFailure),
        }
    }
}

/// Law: whenever the driver reports the surface out of date or suboptimal
/// — at acquisition or at presentation — the frame loop does not fail:
/// it orders swapchain recreation before the next frame begins.
pub proof fn lemma_stale_surface_forces_recreation(
    s: FrameLoop,
    event: FrameEvent,
    r: Result<(FrameLoop, FrameOutcome), RenderError>,
)
    requires
        s.wf(),
        event_fits(s.stage, event),
        reports_stale_surface(event),
        r == step_relation(s, event),
    ensures
        r is Ok,
        r->Ok_0.1 == FrameOutcome::RecreateSwapchain,
{
}

/// The transition relation of `step` as a mathematical value.
pub open spec fn step_relation(s: FrameLoop, event: FrameEvent) -> Result<
    (FrameLoop, FrameOutcome),
    RenderError,
> {
    match event {
        FrameEvent::ImageAcquired { image_index } => Ok(
            (
                FrameLoop { stage: FrameStage::WaitFence, acquired_image: Some(image_index) },
                FrameOutcome::Proceed,
            ),
        ),
        FrameEvent::AcquireOutOfDate => Ok(
            (
                FrameLoop { stage: FrameStage::AcquireImage, acquired_image: None },
                FrameOutcome::RecreateSwapchain,
            ),
        ),
        FrameEvent::AcquireFailed => Err(RenderError::SynchronizationFailure),
        FrameEvent::FenceReady => Ok(
            (
                FrameLoop { stage: FrameStage::UpdateDescriptors, acquired_image: s.acquired_image },
                FrameOutcome::Proceed,
            ),
        ),
        FrameEvent::FenceFailed => Err(RenderError::SynchronizationFailure),
        FrameEvent::DescriptorsWritten => Ok(
            (
                FrameLoop { stage: FrameStage::RecordAndSubmit, acquired_image: s.acquired_image },
                FrameOutcome::Proceed,
            ),
        ),
        FrameEvent::Submitted => Ok(
            (
                FrameLoop { stage: FrameStage::Present, acquired_image: s.acquired_image },
                FrameOutcome::Proceed,
            ),
        ),
        FrameEvent::SubmitFailed => Err(RenderError::SubmissionFailure),
        FrameEvent::Presented { suboptimal } => Ok(
            (
                FrameLoop { stage: FrameStage::Rotate, acquired_image: None },
                if suboptimal {
                    FrameOutcome::RecreateSwapchain
                } else {
                    FrameOutcome::Proceed
                },
            ),
        ),
        FrameEvent::PresentOutOfDate => Ok(
            (
                FrameLoop { stage: FrameStage::Rotate, acquired_image: None },
                FrameOutcome::RecreateSwapchain,
            ),
        ),
        FrameEvent::PresentFailed => Err(RenderError::PresentationFailure),
    }
}

} // verus!
