//! Symbolic input events and the camera movement controller.
//!
//! The window layer translates raw platform events into the symbolic keys and
//! button states below; everything the renderer decides from them is verified
//! here and in the control module.

use vstd::prelude::*;

verus! {

/// The keys the renderer reacts to, already resolved from scancodes by the
/// window layer.
#[derive(Clone, Copy, Debug, PartialEq, Eq, Structural)]
pub enum Key {
    W,
    A,
    S,
    D,
    Space,
    LShift,
    Tab,
    F1,
    F11,
    Key1,
    Key2,
    Key3,
    R,
    T,
    Y,
    I,
    K,
    J,
    L,
    U,
    O,
    Equals,
    Minus,
    LBracket,
    RBracket,
    Up,
    Down,
    Left,
    Right,
}

/// Whether a key went down or up.
#[derive(Clone, Copy, Debug, PartialEq, Eq, Structural)]
pub enum KeyState {
    Pressed,
    Released,
}

/// Held-key state of the free-fly camera. Each flag mirrors whether the
/// matching movement key is currently held; the per-frame integration along
/// the camera axes is performed by the caller from these flags.
#[derive(Clone, Copy, Debug, PartialEq, Eq, Structural)]
pub struct CameraController {
    pub amount_forward: bool,
    pub amount_backward: bool,
    pub amount_left: bool,
    pub amount_right: bool,
    pub amount_up: bool,
    pub amount_down: bool,
}

impl CameraController {
    /// The controller after one key event: a movement key sets its flag to
    /// the key's held state and is consumed; any other key leaves the
    /// controller unchanged.
    pub open spec fn after_key_spec(self, key: Key, pressed: bool) -> (CameraController, bool) {
        match key {
            Key::W | Key::Up => (CameraController { amount_forward: pressed, ..self }, true),
            Key::S | Key::Down => (CameraController { amount_backward: pressed, ..self }, true),
            Key::A | Key::Left => (CameraController { amount_left: pressed, ..self }, true),
            Key::D | Key::Right => (CameraController { amount_right: pressed, ..self }, true),
            Key::Space => (CameraController { amount_up: pressed, ..self }, true),
            Key::LShift => (CameraController { amount_down: pressed, ..self }, true),
            _ => (self, false),
        }
    }

    /// A fresh controller with no key held.
    pub fn new() -> (c: CameraController)
        ensures
            c == (CameraController {
                amount_forward: false,
                amount_backward: false,
                amount_left: false,
                amount_right: false,
                amount_up: false,
                amount_down: false,
            }),
    {
        CameraController {
            amount_forward: false,
            amount_backward: false,
            amount_left: false,
            amount_right: false,
            amount_up: false,
            amount_down: false,
        }
    }

    /// Record one key event. Setting a flag to the held state makes repeated
    /// presses of a held key idempotent: released keys zero the flag, they
    /// are not removed from the set.
    pub fn process_keyboard(&mut self, key: Key, state: KeyState) -> (handled: bool)
        ensures
            (*final(self), handled) == old(self).after_key_spec(key, state is Pressed),
    {
        let pressed = match state {
            KeyState::Pressed => true,
            KeyState::Released => false,
        };
        match key {
            Key::W | Key::Up => {
                self.amount_forward = pressed;
                true
            },
            Key::S | Key::Down => {
                self.amount_backward = pressed;
                true
            },
            Key::A | Key::Left => {
                self.amount_left = pressed;
                true
            },
            Key::D | Key::Right => {
                self.amount_right = pressed;
                true
            },
            Key::Space => {
                self.amount_up = pressed;
                true
            },
            Key::LShift => {
                self.amount_down = pressed;
                true
            },
            _ => false,
        }
    }
}

} // verus!
