use vstd::prelude::*;
use crate::context::SurfaceSize;

verus! {

/// Why the surface could not hand out a frame.
#[derive(Debug, Clone, Copy, PartialEq, Eq, Structural)]
pub enum SurfaceFault {
    Lost,
    Outdated,
    Timeout,
    OutOfMemory,
    Other,
}

/// What the run loop does after a frame failed.
#[derive(Debug, Clone, Copy, PartialEq, Eq, Structural)]
pub enum FrameRecovery {
    /// Configure the surface again and draw on the next frame.
    Reconfigure,
    /// Drop this frame and carry on.
    Continue,
    /// Stop the run loop.
    Exit,
}

/// Lost and outdated surfaces are recovered by configuring them again, a
/// timeout costs one frame, and running out of memory or any other fault
/// ends the run.
pub open spec fn recovery_spec(fault: SurfaceFault) -> FrameRecovery {
    match fault {
        SurfaceFault::Lost | SurfaceFault::Outdated => FrameRecovery::Reconfigure,
        SurfaceFault::Timeout => FrameRecovery::Continue,
        SurfaceFault::OutOfMemory | SurfaceFault::Other => FrameRecovery::Exit,
    }
}

pub fn recovery_for(fault: SurfaceFault) -> (r: FrameRecovery)
    ensures
        r == recovery_spec(fault),
{
    match fault {
        SurfaceFault::Lost | SurfaceFault::Outdated => FrameRecovery::Reconfigure,
        SurfaceFault::Timeout => FrameRecovery::Continue,
        SurfaceFault::OutOfMemory | SurfaceFault::Other => FrameRecovery::Exit,
    }
}

/// A window event that neither the camera nor any render pass took.
#[derive(Debug, Clone, Copy, PartialEq, Eq, Structural)]
pub enum WindowInput {
    CloseRequested,
    EscapePressed,
    LeftButtonPressed,
    Resized(SurfaceSize),
    RedrawRequested,
    Other,
}

/// What the run loop is to do for a window event.
#[derive(Debug, Clone, Copy, PartialEq, Eq, Structural)]
pub enum LoopAction {
    /// Leave the run loop.
    Exit,
    /// Flip cursor capture.
    ToggleCursor,
    /// Resize the surface and everything sized after it.
    Resize(SurfaceSize),
    /// Ask for another redraw, and draw nothing yet.
    ScheduleRedraw,
    /// Ask for another redraw, then update and render this frame.
    DrawFrame,
    /// Nothing.
    Ignore,
}

/// The run loop's own state.
#[derive(Debug, Clone, Copy, PartialEq, Eq, Structural)]
pub struct FrameLoop {
    /// The window has reported its size at least once, so the surface can
    /// be drawn to.
    pub surface_configured: bool,
}

/// The action for `input`, given whether the surface has been configured and
/// whether the cursor is captured.
pub open spec fn loop_action_spec(
    surface_configured: bool,
    cursor_captured: bool,
    input: WindowInput,
) -> LoopAction {
    match input {
        WindowInput::CloseRequested => LoopAction::Exit,
        WindowInput::EscapePressed => if cursor_captured {
            LoopAction::ToggleCursor
        } else {
            LoopAction::Ignore
        },
        WindowInput::LeftButtonPressed => LoopAction::ToggleCursor,
        WindowInput::Resized(size) => LoopAction::Resize(size),
        WindowInput::RedrawRequested => if surface_configured {
            LoopAction::DrawFrame
        } else {
            LoopAction::ScheduleRedraw
        },
        WindowInput::Other => LoopAction::Ignore,
    }
}

impl FrameLoop {
    /// Nothing drawn yet: the surface waits for its first size.
    pub fn new() -> (r: FrameLoop)
        ensures
            !r.surface_configured,
    {
        FrameLoop { surface_configured: false }
    }

    /// Decides what a window event leads to. A resize marks the surface as
    /// configured, before the action is chosen.
    pub fn on_window_input(&mut self, cursor_captured: bool, input: WindowInput) -> (r: LoopAction)
        ensures
            final(self).surface_configured == (old(self).surface_configured
                || input is Resized),
            r == loop_action_spec(final(self).surface_configured, cursor_captured, input),
    {
        match input {
            WindowInput::CloseRequested => LoopAction::Exit,
            WindowInput::EscapePressed => {
                if cursor_captured {
                    LoopAction::ToggleCursor
                } else {
                    LoopAction::Ignore
                }
            },
            WindowInput::LeftButtonPressed => LoopAction::ToggleCursor,
            WindowInput::Resized(size) => {
                self.surface_configured = true;
                LoopAction::Resize(size)
            },
            WindowInput::RedrawRequested => {
                if self.surface_configured {
                    LoopAction::DrawFrame
                } else {
                    LoopAction::ScheduleRedraw
                }
            },
            WindowInput::Other => LoopAction::Ignore,
        }
    }
}

} // verus!
