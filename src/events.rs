//! Routing of window events: which ones drive the camera, and what the event
//! loop does with the rest.
use vstd::prelude::*;
use crate::controller::{CameraController, Key, movement_of};

verus! {

/// Mouse buttons, as far as the camera cares.
#[derive(Clone, Copy, Debug, PartialEq, Eq, Structural)]
pub enum MouseButton {
    Left,
    Other,
}

/// A window event, reduced to what the core reads. The amount of a wheel
/// turn is continuous and kept by the caller with the rest of the camera pose.
#[derive(Clone, Copy, Debug, PartialEq, Eq, Structural)]
pub enum WindowInput {
    Key { key: Key, pressed: bool },
    MouseWheel,
    MouseButton { button: MouseButton, pressed: bool },
    Resized { width: u32, height: u32 },
    CloseRequested,
    RedrawRequested,
    Other,
}

/// What the event loop does with an event.
#[derive(Clone, Copy, Debug, PartialEq, Eq, Structural)]
pub enum LoopAction {
    /// The camera input took the event.
    Consumed,
    /// Leave the loop.
    Exit,
    /// The window has a new size.
    Resize { width: u32, height: u32 },
    /// Run one frame.
    Redraw,
    /// Nothing to do.
    Ignore,
}

/// Whether the camera input takes an event.
pub open spec fn consumes(event: WindowInput) -> bool {
    match event {
        WindowInput::Key { key, pressed: _ } => movement_of(key).is_some(),
        WindowInput::MouseWheel => true,
        WindowInput::MouseButton { button, pressed: _ } => button == MouseButton::Left,
        _ => false,
    }
}

/// The loop's action for an event that the camera input did not take.
pub open spec fn loop_action_of(event: WindowInput) -> LoopAction {
    match event {
        WindowInput::CloseRequested => LoopAction::Exit,
        WindowInput::Key { key: Key::Escape, pressed: true } => LoopAction::Exit,
        WindowInput::Resized { width, height } => LoopAction::Resize { width, height },
        WindowInput::RedrawRequested => LoopAction::Redraw,
        _ => LoopAction::Ignore,
    }
}

/// Input state of the camera: held movement keys and whether the left mouse
/// button is down, which is when pointer motion turns the view.
pub struct InputState {
    pub controller: CameraController,
    pub mouse_pressed: bool,
}

impl InputState {
    /// The state after the camera input reads `event`.
    pub open spec fn spec_after(self, event: WindowInput) -> (CameraController, bool) {
        match event {
            WindowInput::Key { key, pressed } => (
                self.controller.after_key(key, pressed),
                self.mouse_pressed,
            ),
            WindowInput::MouseButton { button: MouseButton::Left, pressed } => (
                self.controller,
                pressed,
            ),
            _ => (self.controller, self.mouse_pressed),
        }
    }

    /// Nothing held, mouse button up.
    pub fn new() -> (r: Self)
        ensures
            forall|m| !r.controller.holds(m),
            !r.mouse_pressed,
    {
        InputState { controller: CameraController::new(), mouse_pressed: false }
    }

    /// Whether pointer motion currently turns the view.
    pub fn accepts_mouse_motion(&self) -> (r: bool)
        ensures
            r == self.mouse_pressed,
    {
        self.mouse_pressed
    }

    /// Hands `event` to the camera input; returns whether it was taken.
    pub fn input(&mut self, event: WindowInput) -> (r: bool)
        ensures
            r == consumes(event),
            (final(self).controller, final(self).mouse_pressed) == old(self).spec_after(
                event,
            ),
    {
        match event {
            WindowInput::Key { key, pressed } => self.controller.process_keyboard(key, pressed),
            WindowInput::MouseWheel => true,
            WindowInput::MouseButton { button, pressed } => {
                match button {
                    MouseButton::Left => {
                        self.mouse_pressed = pressed;
                        true
                    },
                    MouseButton::Other => false,
                }
            },
            _ => false,
        }
    }

    /// One step of the event loop: the camera input reads the event first;
    /// what it does not take closes the window, resizes it or draws a frame.
    pub fn handle_window_event(&mut self, event: WindowInput) -> (r: LoopAction)
        ensures
            (final(self).controller, final(self).mouse_pressed) == old(self).spec_after(
                event,
            ),
            r == if consumes(event) {
                LoopAction::Consumed
            } else {
                loop_action_of(event)
            },
    {
        if self.input(event) {
            return LoopAction::Consumed;
        }
        match event {
            WindowInput::CloseRequested => LoopAction::Exit,
            WindowInput::Key { key: Key::Escape, pressed: true } => LoopAction::Exit,
            WindowInput::Resized { width, height } => LoopAction::Resize { width, height },
            WindowInput::RedrawRequested => LoopAction::Redraw,
            _ => LoopAction::Ignore,
        }
    }
}

} // verus!
