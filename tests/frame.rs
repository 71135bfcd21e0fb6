use terrain_scene::context::SurfaceSize;
use terrain_scene::frame::{
    recovery_for, FrameLoop, FrameRecovery, LoopAction, SurfaceFault, WindowInput,
};

#[test]
fn surface_faults() {
    assert_eq!(recovery_for(SurfaceFault::Lost), FrameRecovery::Reconfigure);
    assert_eq!(recovery_for(SurfaceFault::Outdated), FrameRecovery::Reconfigure);
    assert_eq!(recovery_for(SurfaceFault::Timeout), FrameRecovery::Continue);
    assert_eq!(recovery_for(SurfaceFault::OutOfMemory), FrameRecovery::Exit);
    assert_eq!(recovery_for(SurfaceFault::Other), FrameRecovery::Exit);
}

#[test]
fn no_frame_before_first_resize() {
    let mut lp = FrameLoop::new();
    assert_eq!(
        lp.on_window_input(false, WindowInput::RedrawRequested),
        LoopAction::ScheduleRedraw
    );
    let size = SurfaceSize { width: 300, height: 200 };
    assert_eq!(
        lp.on_window_input(false, WindowInput::Resized(size)),
        LoopAction::Resize(size)
    );
    assert!(lp.surface_configured);
    assert_eq!(
        lp.on_window_input(false, WindowInput::RedrawRequested),
        LoopAction::DrawFrame
    );
}

#[test]
fn escape_releases_only_a_captured_cursor() {
    let mut lp = FrameLoop::new();
    assert_eq!(
        lp.on_window_input(true, WindowInput::EscapePressed),
        LoopAction::ToggleCursor
    );
    assert_eq!(
        lp.on_window_input(false, WindowInput::EscapePressed),
        LoopAction::Ignore
    );
}

#[test]
fn click_toggles_and_close_exits() {
    let mut lp = FrameLoop::new();
    assert_eq!(
        lp.on_window_input(false, WindowInput::LeftButtonPressed),
        LoopAction::ToggleCursor
    );
    assert_eq!(
        lp.on_window_input(true, WindowInput::LeftButtonPressed),
        LoopAction::ToggleCursor
    );
    assert_eq!(lp.on_window_input(true, WindowInput::CloseRequested), LoopAction::Exit);
    assert_eq!(lp.on_window_input(true, WindowInput::Other), LoopAction::Ignore);
    assert!(!lp.surface_configured);
}
