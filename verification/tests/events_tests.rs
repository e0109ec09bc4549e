use render_core::events::{
    handle_event, handle_frame_result, FrameOutcome, LoopAction, LoopEvent, SurfaceError,
};
use render_core::renderer::{Extent, Renderer, SurfaceCapabilities, SurfaceFormat};

fn size(width: u32, height: u32) -> Extent {
    Extent { width, height }
}

#[test]
fn close_request_exits_the_loop() {
    assert_eq!(handle_event(&LoopEvent::CloseRequested), LoopAction::Exit);
}

#[test]
fn pressed_escape_exits_the_loop() {
    let a = handle_event(&LoopEvent::KeyboardInput { pressed: true, escape: true });
    assert_eq!(a, LoopAction::Exit);
}

#[test]
fn released_escape_is_ignored() {
    let a = handle_event(&LoopEvent::KeyboardInput { pressed: false, escape: true });
    assert_eq!(a, LoopAction::Ignore);
}

#[test]
fn other_keys_are_ignored() {
    let a = handle_event(&LoopEvent::KeyboardInput { pressed: true, escape: false });
    assert_eq!(a, LoopAction::Ignore);
}

#[test]
fn resize_event_carries_its_size() {
    let a = handle_event(&LoopEvent::Resized(size(320, 240)));
    assert_eq!(a, LoopAction::Resize(size(320, 240)));
}

#[test]
fn redraw_request_services_a_frame() {
    assert_eq!(handle_event(&LoopEvent::RedrawRequested), LoopAction::RedrawFrame);
    assert_eq!(handle_event(&LoopEvent::Other), LoopAction::Ignore);
}

#[test]
fn lost_surface_resizes_once_with_current_size() {
    let current = size(800, 600);
    let outcome = handle_frame_result(&Err(SurfaceError::Lost), current);
    assert_eq!(outcome, FrameOutcome::ResizeAndSkip(current));

    let capabilities = SurfaceCapabilities {
        formats: vec![SurfaceFormat { id: 1, srgb: true }],
        present_modes: vec![0],
        alpha_modes: vec![0],
    };
    let mut renderer = Renderer::new(current, &capabilities).unwrap();
    match outcome {
        FrameOutcome::ResizeAndSkip(s) => {
            assert!(renderer.resize(s));
            assert_eq!(renderer.size, current);
            assert_eq!(renderer.config.width, 800);
            assert_eq!(renderer.config.height, 600);
        }
        _ => panic!("lost surface must ask for a resize"),
    }
}

#[test]
fn successful_frame_asks_for_no_resize() {
    assert_eq!(handle_frame_result(&Ok(()), size(10, 10)), FrameOutcome::Continue);
}

#[test]
fn out_of_memory_terminates_the_loop() {
    let outcome = handle_frame_result(&Err(SurfaceError::OutOfMemory), size(800, 600));
    assert_eq!(outcome, FrameOutcome::Terminate);

    assert_ne!(handle_frame_result(&Ok(()), size(1, 1)), FrameOutcome::Terminate);
    assert_ne!(
        handle_frame_result(&Err(SurfaceError::Lost), size(1, 1)),
        FrameOutcome::Terminate
    );
    assert_ne!(
        handle_frame_result(&Err(SurfaceError::Timeout), size(1, 1)),
        FrameOutcome::Terminate
    );
    assert_ne!(
        handle_frame_result(&Err(SurfaceError::Outdated), size(1, 1)),
        FrameOutcome::Terminate
    );
}

#[test]
fn transient_errors_drop_the_frame_and_continue() {
    assert_eq!(
        handle_frame_result(&Err(SurfaceError::Timeout), size(5, 5)),
        FrameOutcome::SkipFrame
    );
    assert_eq!(
        handle_frame_result(&Err(SurfaceError::Outdated), size(5, 5)),
        FrameOutcome::SkipFrame
    );
}
