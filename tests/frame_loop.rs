use frame_pipeline::frame::DataUniform;
use frame_pipeline::input::{InputEvent, InputState, Key, RotationController};
use frame_pipeline::scheduler::{
    frame_cap_delay, FrameScheduler, LoopAction, PresentAction, PresentOutcome, RunState,
    WindowEventKind, FRAME_PERIOD_NANOS,
};
use frame_pipeline::surface::{choose_surface_format, SurfaceSize, SurfaceState};

#[test]
fn update_counts_frames_and_time() {
    let mut d = DataUniform::new();
    d.update(16_000_000);
    assert_eq!((d.frame, d.delta_time, d.time), (1, 16_000_000, 16_000_000));
    d.update(4_000_000);
    assert_eq!((d.frame, d.delta_time, d.time), (2, 4_000_000, 20_000_000));
    d.update(0);
    assert_eq!((d.frame, d.delta_time, d.time), (3, 0, 20_000_000));
}

#[test]
fn zero_area_resize_keeps_surface() {
    let mut s = SurfaceState::new(800, 600);
    let before = s;
    assert!(!s.resize(0, 600));
    assert_eq!(s, before);
    assert!(!s.resize(800, 0));
    assert_eq!(s, before);
    assert!(!s.resize(0, 0));
    assert_eq!(s, before);
}

#[test]
fn positive_resize_rebuilds_depth() {
    let mut s = SurfaceState::new(800, 600);
    assert!(s.resize(1024, 768));
    let size = SurfaceSize { width: 1024, height: 768 };
    assert_eq!(s.size, size);
    assert_eq!(s.config, size);
    assert_eq!(s.depth, size);
}

#[test]
fn surface_format_prefers_srgb() {
    assert_eq!(choose_surface_format(&vec![false, true, true]), Some(1));
    assert_eq!(choose_surface_format(&vec![false, false]), Some(0));
    assert_eq!(choose_surface_format(&vec![true]), Some(0));
    assert_eq!(choose_surface_format(&vec![]), None);
}

#[test]
fn rotation_keys_track_held_state() {
    let mut rc = RotationController::new(100);
    assert!(rc.process_events(InputEvent::Keyboard { key: Key::Up, pressed: true }));
    assert!(rc.process_events(InputEvent::Keyboard { key: Key::Right, pressed: true }));
    assert_eq!(rc.pitch_direction(), 1);
    assert_eq!(rc.yaw_direction(), -1);
    assert!(rc.process_events(InputEvent::Keyboard { key: Key::Down, pressed: true }));
    assert_eq!(rc.pitch_direction(), 0);
    assert!(rc.process_events(InputEvent::Keyboard { key: Key::Up, pressed: false }));
    assert_eq!(rc.pitch_direction(), -1);
    assert!(!rc.process_events(InputEvent::Keyboard { key: Key::Escape, pressed: true }));
    assert!(!rc.process_events(InputEvent::MouseWheel));
    assert_eq!(rc.speed, 100);
}

#[test]
fn input_routing() {
    let mut s = InputState { mouse_pressed: false, rotation_controller: RotationController::new(100) };
    assert!(s.input(InputEvent::MouseButton { left: true, pressed: true }, false));
    assert!(s.mouse_pressed);
    assert!(!s.input(InputEvent::MouseButton { left: false, pressed: false }, false));
    assert!(s.mouse_pressed);
    assert!(s.input(InputEvent::MouseWheel, false));
    // A key the camera took never reaches the rotation controller.
    assert!(s.input(InputEvent::Keyboard { key: Key::Left, pressed: true }, true));
    assert!(!s.rotation_controller.is_left_pressed);
    assert!(s.input(InputEvent::Keyboard { key: Key::Left, pressed: true }, false));
    assert!(s.rotation_controller.is_left_pressed);
    assert!(!s.input(InputEvent::Keyboard { key: Key::Other, pressed: true }, false));
    assert!(!s.input(InputEvent::Other, false));
}

#[test]
fn close_and_escape_exit() {
    let mut f = FrameScheduler::new();
    assert_eq!(f.on_window_event(true, WindowEventKind::CloseRequested), LoopAction::Nothing);
    assert_eq!(f.state, RunState::Running);
    assert_eq!(
        f.on_window_event(false, WindowEventKind::Keyboard { key: Key::Escape, pressed: false }),
        LoopAction::Nothing
    );
    assert_eq!(
        f.on_window_event(false, WindowEventKind::Resized { width: 10, height: 0 }),
        LoopAction::Resize { width: 10, height: 0 }
    );
    assert_eq!(f.state, RunState::Running);
    assert_eq!(
        f.on_window_event(false, WindowEventKind::Keyboard { key: Key::Escape, pressed: true }),
        LoopAction::Exit
    );
    assert_eq!(f.state, RunState::Exiting);
    let mut g = FrameScheduler::new();
    assert_eq!(g.on_window_event(false, WindowEventKind::CloseRequested), LoopAction::Exit);
    assert_eq!(g.state, RunState::Exiting);
}

#[test]
fn present_outcomes() {
    let mut f = FrameScheduler::new();
    assert_eq!(f.on_present(PresentOutcome::Presented), PresentAction::Continue);
    assert_eq!(f.on_present(PresentOutcome::Lost), PresentAction::RebuildSurface);
    assert_eq!(f.on_present(PresentOutcome::Failed), PresentAction::Report);
    assert_eq!(f.state, RunState::Running);
    assert_eq!(f.on_present(PresentOutcome::OutOfMemory), PresentAction::Exit);
    assert_eq!(f.state, RunState::Exiting);
}

#[test]
fn frame_cap_waits_out_the_period() {
    assert_eq!(FRAME_PERIOD_NANOS, 6_944_444);
    assert_eq!(frame_cap_delay(0), 6_944_444);
    assert_eq!(frame_cap_delay(1_000_000), 5_944_444);
    assert_eq!(frame_cap_delay(6_944_444), 0);
    assert_eq!(frame_cap_delay(20_000_000), 0);
}

#[test]
fn mouse_motion_only_while_button_held() {
    let mut s = InputState { mouse_pressed: false, rotation_controller: RotationController::new(100) };
    assert!(!s.routes_mouse_motion());
    s.input(InputEvent::MouseButton { left: true, pressed: true }, false);
    assert!(s.routes_mouse_motion());
    s.input(InputEvent::MouseButton { left: true, pressed: false }, false);
    assert!(!s.routes_mouse_motion());
}
