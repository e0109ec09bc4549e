//! The event-loop decisions: what each window event asks of the loop, and
//! what to do with the result of one frame. The platform loop delivers the
//! events and performs the actions; every choice is made here.

use vstd::prelude::*;
use crate::renderer::Extent;

verus! {

/// A window event as the loop's decisions read it.
#[derive(Clone, Copy, PartialEq, Eq, Structural, Debug)]
pub enum LoopEvent {
    /// The platform asked the window to close.
    CloseRequested,
    /// The window took a new physical size.
    Resized(Extent),
    /// A key changed state; `escape` says whether it was the escape key.
    KeyboardInput { pressed: bool, escape: bool },
    /// The platform asked for a frame.
    RedrawRequested,
    /// Anything else the platform delivers.
    Other,
}

/// What the loop must do with one event.
#[derive(Clone, Copy, PartialEq, Eq, Structural, Debug)]
pub enum LoopAction {
    /// Leave the loop; the process ends normally.
    Exit,
    /// Apply this size to the device context before the next frame.
    Resize(Extent),
    /// Service a frame: tick, then render.
    RedrawFrame,
    /// Nothing.
    Ignore,
}

/// Why frame acquisition failed.
#[derive(Clone, Copy, PartialEq, Eq, Structural, Debug)]
pub enum SurfaceError {
    /// The swap chain timed out; transient.
    Timeout,
    /// The surface no longer matches the window; transient.
    Outdated,
    /// The surface was lost and must be reconfigured.
    Lost,
    /// The device is out of memory; fatal.
    OutOfMemory,
}

/// What the loop must do after one frame's render result.
#[derive(Clone, Copy, PartialEq, Eq, Structural, Debug)]
pub enum FrameOutcome {
    /// The frame was presented; carry on.
    Continue,
    /// Reconfigure by resizing to the carried size, once; no draw was
    /// submitted this frame.
    ResizeAndSkip(Extent),
    /// Leave the loop; no further frame is processed.
    Terminate,
    /// Log and drop the frame; carry on.
    SkipFrame,
}

/// Decides what one window event asks of the loop: close and a pressed
/// escape key exit, a resize carries its size through, a redraw request
/// services a frame, and everything else is ignored.
pub fn handle_event(event: &LoopEvent) -> (a: LoopAction)
    ensures
        *event matches LoopEvent::CloseRequested ==> a == LoopAction::Exit,
        *event matches LoopEvent::Resized(size) ==> a == LoopAction::Resize(size),
        *event matches LoopEvent::KeyboardInput { pressed, escape } ==> a == (if pressed
            && escape {
            LoopAction::Exit
        } else {
            LoopAction::Ignore
        }),
        *event matches LoopEvent::RedrawRequested ==> a == LoopAction::RedrawFrame,
        *event matches LoopEvent::Other ==> a == LoopAction::Ignore,
{
    match event {
        LoopEvent::CloseRequested => LoopAction::Exit,
        LoopEvent::Resized(size) => LoopAction::Resize(*size),
        LoopEvent::KeyboardInput { pressed, escape } => {
            if *pressed && *escape {
                LoopAction::Exit
            } else {
                LoopAction::Ignore
            }
        },
        LoopEvent::RedrawRequested => LoopAction::RedrawFrame,
        LoopEvent::Other => LoopAction::Ignore,
    }
}

/// Decides what follows one frame: a lost surface asks for exactly one
/// resize to the currently stored size and no draw submission; an
/// out-of-memory error terminates the loop with no further frames; any other
/// acquisition error drops the frame and carries on; success carries on.
pub fn handle_frame_result(result: &Result<(), SurfaceError>, current_size: Extent) -> (a:
    FrameOutcome)
    ensures
        *result is Ok ==> a == FrameOutcome::Continue,
        *result == Err::<(), SurfaceError>(SurfaceError::Lost) ==> a == FrameOutcome::ResizeAndSkip(
            current_size,
        ),
        *result == Err::<(), SurfaceError>(SurfaceError::OutOfMemory) ==> a
            == FrameOutcome::Terminate,
        *result == Err::<(), SurfaceError>(SurfaceError::Timeout) ==> a == FrameOutcome::SkipFrame,
        *result == Err::<(), SurfaceError>(SurfaceError::Outdated) ==> a == FrameOutcome::SkipFrame,
{
    match result {
        Ok(_) => FrameOutcome::Continue,
        Err(SurfaceError::Lost) => FrameOutcome::ResizeAndSkip(current_size),
        Err(SurfaceError::OutOfMemory) => FrameOutcome::Terminate,
        Err(SurfaceError::Timeout) => FrameOutcome::SkipFrame,
        Err(SurfaceError::Outdated) => FrameOutcome::SkipFrame,
    }
}

} // verus!
