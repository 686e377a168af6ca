use wig_engine::controller::{movement_for_key, CameraController, Key, Movement};
use wig_engine::events::{InputState, LoopAction, MouseButton, WindowInput};

#[test]
fn forward_and_backward_held_together_cancel() {
    let mut c = CameraController::new();
    assert!(c.process_keyboard(Key::KeyW, true));
    assert!(c.process_keyboard(Key::KeyS, true));
    assert_eq!(c.net_forward(), 0);
    assert!(c.is_held(Movement::Forward) && c.is_held(Movement::Backward));
    assert!(c.process_keyboard(Key::KeyS, false));
    assert_eq!(c.net_forward(), 1);
}

#[test]
fn left_right_and_up_down_pairs_cancel() {
    let mut c = CameraController::new();
    c.process_keyboard(Key::ArrowLeft, true);
    c.process_keyboard(Key::KeyD, true);
    c.process_keyboard(Key::Space, true);
    c.process_keyboard(Key::ShiftLeft, true);
    assert_eq!(c.net_right(), 0);
    assert_eq!(c.net_up(), 0);
    c.process_keyboard(Key::ShiftLeft, false);
    assert_eq!(c.net_up(), 1);
    c.process_keyboard(Key::ArrowLeft, false);
    assert_eq!(c.net_right(), 1);
}

#[test]
fn backward_alone_gives_negative_intent() {
    let mut c = CameraController::new();
    c.process_keyboard(Key::ArrowDown, true);
    assert_eq!(c.net_forward(), -1);
}

#[test]
fn unknown_key_is_not_a_camera_command() {
    let mut c = CameraController::new();
    assert!(!c.process_keyboard(Key::Enter, true));
    assert!(!c.process_keyboard(Key::Other, true));
    assert_eq!((c.net_forward(), c.net_right(), c.net_up()), (0, 0, 0));
    assert_eq!(movement_for_key(Key::Escape), None);
    assert_eq!(movement_for_key(Key::ArrowUp), Some(Movement::Forward));
}

#[test]
fn left_button_gates_mouse_motion() {
    let mut s = InputState::new();
    assert!(!s.accepts_mouse_motion());
    assert!(s.input(WindowInput::MouseButton { button: MouseButton::Left, pressed: true }));
    assert!(s.accepts_mouse_motion());
    assert!(!s.input(WindowInput::MouseButton { button: MouseButton::Other, pressed: false }));
    assert!(s.accepts_mouse_motion());
    s.input(WindowInput::MouseButton { button: MouseButton::Left, pressed: false });
    assert!(!s.accepts_mouse_motion());
}

#[test]
fn event_loop_dispatch() {
    let mut s = InputState::new();
    assert_eq!(s.handle_window_event(WindowInput::MouseWheel), LoopAction::Consumed);
    assert_eq!(
        s.handle_window_event(WindowInput::Key { key: Key::KeyW, pressed: true }),
        LoopAction::Consumed
    );
    assert_eq!(s.controller.net_forward(), 1);
    assert_eq!(
        s.handle_window_event(WindowInput::Key { key: Key::Escape, pressed: true }),
        LoopAction::Exit
    );
    assert_eq!(
        s.handle_window_event(WindowInput::Key { key: Key::Escape, pressed: false }),
        LoopAction::Ignore
    );
    assert_eq!(s.handle_window_event(WindowInput::CloseRequested), LoopAction::Exit);
    assert_eq!(
        s.handle_window_event(WindowInput::Resized { width: 640, height: 480 }),
        LoopAction::Resize { width: 640, height: 480 }
    );
    assert_eq!(s.handle_window_event(WindowInput::RedrawRequested), LoopAction::Redraw);
    assert_eq!(s.handle_window_event(WindowInput::Other), LoopAction::Ignore);
}
