use vstd::prelude::*;

verus! {

/// The failure conditions of the rendering core.
///
/// `SurfaceInvalidated` is the one expected, recoverable condition: it
/// triggers swapchain recreation. Every other variant aborts the current
/// frame (or, for `QueueSelectionFailure`, startup) and is surfaced to the
/// embedding application. `SingularTransform` is fatal only for the affected
/// entity's draw: the caller skips that entity and keeps the frame.
#[derive(Clone, Copy, Debug, PartialEq, Eq, Structural)]
pub enum RenderError {
    QueueSelectionFailure,
    AllocationFailure,
    SynchronizationFailure,
    SurfaceInvalidated,
    SubmissionFailure,
    PresentationFailure,
    SingularTransform,
}

impl RenderError {
    /// An error is recoverable exactly when it reports an invalidated
    /// surface, which asks for swapchain recreation instead of an abort.
    pub open spec fn spec_is_recoverable(self) -> bool {
        self is SurfaceInvalidated
    }

    pub fn is_recoverable(&self) -> (r: bool)
        ensures
            r == self.spec_is_recoverable(),
    {
        matches!(self, RenderError::SurfaceInvalidated)
    }
}

} // verus!
