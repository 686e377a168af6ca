//! Movement intents of the free-fly camera, driven by held keys.
//!
//! Each movement direction is either held or released. Opposite directions
//! may be held together; they cancel when the net intent of an axis is taken,
//! never by dropping one of them.
use vstd::prelude::*;

verus! {

/// The physical keys that the camera and the console read.
#[derive(Clone, Copy, Debug, PartialEq, Eq, Structural)]
pub enum Key {
    KeyW,
    KeyA,
    KeyS,
    KeyD,
    ArrowUp,
    ArrowDown,
    ArrowLeft,
    ArrowRight,
    Space,
    ShiftLeft,
    Enter,
    Backspace,
    Escape,
    Other,
}

/// A direction of camera movement.
#[derive(Clone, Copy, Debug, PartialEq, Eq, Structural)]
pub enum Movement {
    Forward,
    Backward,
    Left,
    Right,
    Up,
    Down,
}

/// The movement that a key drives, if any.
pub open spec fn movement_of(key: Key) -> Option<Movement> {
    match key {
        Key::KeyW | Key::ArrowUp => Some(Movement::Forward),
        Key::KeyS | Key::ArrowDown => Some(Movement::Backward),
        Key::KeyA | Key::ArrowLeft => Some(Movement::Left),
        Key::KeyD | Key::ArrowRight => Some(Movement::Right),
        Key::Space => Some(Movement::Up),
        Key::ShiftLeft => Some(Movement::Down),
        _ => None,
    }
}

pub fn movement_for_key(key: Key) -> (r: Option<Movement>)
    ensures
        r == movement_of(key),
{
    match key {
        Key::KeyW | Key::ArrowUp => Some(Movement::Forward),
        Key::KeyS | Key::ArrowDown => Some(Movement::Backward),
        Key::KeyA | Key::ArrowLeft => Some(Movement::Left),
        Key::KeyD | Key::ArrowRight => Some(Movement::Right),
        Key::Space => Some(Movement::Up),
        Key::ShiftLeft => Some(Movement::Down),
        _ => None,
    }
}

/// Which movement keys are held. The intent of a held direction is one unit;
/// that of a released direction is zero.
#[derive(Clone, Copy, Debug)]
pub struct CameraController {
    forward: bool,
    backward: bool,
    left: bool,
    right: bool,
    up: bool,
    down: bool,
}

/// Intent of one direction: one unit when held, else zero.
pub open spec fn intent(held: bool) -> int {
    if held {
        1
    } else {
        0
    }
}

impl CameraController {
    /// Whether the given direction is held.
    pub closed spec fn holds(&self, m: Movement) -> bool {
        match m {
            Movement::Forward => self.forward,
            Movement::Backward => self.backward,
            Movement::Left => self.left,
            Movement::Right => self.right,
            Movement::Up => self.up,
            Movement::Down => self.down,
        }
    }

    /// Net intent along the view's horizontal forward axis.
    pub open spec fn spec_net_forward(&self) -> int {
        intent(self.holds(Movement::Forward)) - intent(self.holds(Movement::Backward))
    }

    /// Net intent along the view's right axis.
    pub open spec fn spec_net_right(&self) -> int {
        intent(self.holds(Movement::Right)) - intent(self.holds(Movement::Left))
    }

    /// Net intent along the world's vertical axis.
    pub open spec fn spec_net_up(&self) -> int {
        intent(self.holds(Movement::Up)) - intent(self.holds(Movement::Down))
    }

    /// Net intent on the axis that `m` lies on.
    pub open spec fn spec_net_on_axis(&self, m: Movement) -> int {
        match m {
            Movement::Forward | Movement::Backward => self.spec_net_forward(),
            Movement::Left | Movement::Right => self.spec_net_right(),
            Movement::Up | Movement::Down => self.spec_net_up(),
        }
    }

    /// The controller after `key` is pressed (`pressed`) or released.
    pub closed spec fn after_key(self, key: Key, pressed: bool) -> Self {
        match movement_of(key) {
            Some(Movement::Forward) => CameraController { forward: pressed, ..self },
            Some(Movement::Backward) => CameraController { backward: pressed, ..self },
            Some(Movement::Left) => CameraController { left: pressed, ..self },
            Some(Movement::Right) => CameraController { right: pressed, ..self },
            Some(Movement::Up) => CameraController { up: pressed, ..self },
            Some(Movement::Down) => CameraController { down: pressed, ..self },
            None => self,
        }
    }

    /// A controller with every direction released.
    pub fn new() -> (r: Self)
        ensures
            forall|m: Movement| !r.holds(m),
    {
        CameraController {
            forward: false,
            backward: false,
            left: false,
            right: false,
            up: false,
            down: false,
        }
    }

    pub fn is_held(&self, m: Movement) -> (r: bool)
        ensures
            r == self.holds(m),
    {
        match m {
            Movement::Forward => self.forward,
            Movement::Backward => self.backward,
            Movement::Left => self.left,
            Movement::Right => self.right,
            Movement::Up => self.up,
            Movement::Down => self.down,
        }
    }

    /// Presses (`pressed`) or releases the direction that `key` drives.
    /// Returns whether `key` is a camera key; any other key changes nothing.
    pub fn process_keyboard(&mut self, key: Key, pressed: bool) -> (r: bool)
        ensures
            r == movement_of(key).is_some(),
            *final(self) == old(self).after_key(key, pressed),
            forall|m: Movement|
                #[trigger] final(self).holds(m) == if movement_of(key) == Some(m) {
                    pressed
                } else {
                    old(self).holds(m)
                },
    {
        match movement_for_key(key) {
            Some(Movement::Forward) => {
                self.forward = pressed;
                true
            },
            Some(Movement::Backward) => {
                self.backward = pressed;
                true
            },
            Some(Movement::Left) => {
                self.left = pressed;
                true
            },
            Some(Movement::Right) => {
                self.right = pressed;
                true
            },
            Some(Movement::Up) => {
                self.up = pressed;
                true
            },
            Some(Movement::Down) => {
                self.down = pressed;
                true
            },
            None => false,
        }
    }

    /// Net forward intent: -1, 0 or 1.
    pub fn net_forward(&self) -> (r: i8)
        ensures
            r == self.spec_net_forward(),
    {
        (self.forward as i8) - (self.backward as i8)
    }

    /// Net rightward intent: -1, 0 or 1.
    pub fn net_right(&self) -> (r: i8)
        ensures
            r == self.spec_net_right(),
    {
        (self.right as i8) - (self.left as i8)
    }

    /// Net upward intent: -1, 0 or 1.
    pub fn net_up(&self) -> (r: i8)
        ensures
            r == self.spec_net_up(),
    {
        (self.up as i8) - (self.down as i8)
    }
}

/// Holding both keys of an opposite pair gives no net intent on that axis,
/// whatever else is held.
pub proof fn lemma_opposite_keys_cancel(c: CameraController)
    ensures
        c.holds(Movement::Forward) && c.holds(Movement::Backward) ==> c.spec_net_forward() == 0,
        c.holds(Movement::Left) && c.holds(Movement::Right) ==> c.spec_net_right() == 0,
        c.holds(Movement::Up) && c.holds(Movement::Down) ==> c.spec_net_up() == 0,
{
}

/// The direction opposite to `m`.
pub open spec fn opposite(m: Movement) -> Movement {
    match m {
        Movement::Forward => Movement::Backward,
        Movement::Backward => Movement::Forward,
        Movement::Left => Movement::Right,
        Movement::Right => Movement::Left,
        Movement::Up => Movement::Down,
        Movement::Down => Movement::Up,
    }
}

/// Pressing a key and then one of the opposite direction leaves no net
/// intent on that axis, from any starting state, and leaves the other
/// directions as they were.
pub proof fn lemma_pressing_opposites_cancels(c: CameraController, a: Key, b: Key, m: Movement)
    requires
        movement_of(a) == Some(m),
        movement_of(b) == Some(opposite(m)),
    ensures
        ({
            let after = c.after_key(a, true).after_key(b, true);
            &&& after.holds(m) && after.holds(opposite(m))
            &&& after.spec_net_on_axis(m) == 0
            &&& forall|other: Movement|
                other != m && other != opposite(m) ==> #[trigger] after.holds(other) == c.holds(
                    other,
                )
        }),
{
}

} // verus!
