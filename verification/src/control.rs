//! Orchestrator-level input routing: the state the frame loop's key and
//! mouse handlers read and write, and the effects they ask the window/GPU
//! layer to perform.
//!
//! Each event is a pure step from state to state plus at most one effect; the
//! caller performs the effect (rebuild a bind group, reconfigure the surface,
//! change the window mode, rotate the light direction) and feeds later events
//! back in.

use vstd::prelude::*;
use crate::input::{Key, KeyState};
use crate::lighting::DirectionalLight;
use crate::render_mode::{DebugTexture, RenderOutputMode, WindowMode};

verus! {

/// Axis of a fixed-increment light rotation.
#[derive(Clone, Copy, Debug, PartialEq, Eq, Structural)]
pub enum Axis {
    X,
    Y,
    Z,
}

/// Work a handled event asks the window/GPU layer to perform.
#[derive(Clone, Copy, Debug, PartialEq, Eq, Structural)]
pub enum ControlEffect {
    /// Rebuild the debug-overlay bind group against this texture's view.
    RebuildDebugBindGroup(DebugTexture),
    /// Reconfigure the surface with the next present mode.
    CyclePresentMode,
    /// Put the window into this mode.
    SetWindowMode(WindowMode),
    /// Rotate the directional light direction by the fixed per-press
    /// increment about this axis, then store the new direction words.
    RotateDirectionalLight(Axis),
}

/// Mouse buttons the renderer reacts to.
#[derive(Clone, Copy, Debug, PartialEq, Eq, Structural)]
pub enum MouseButton {
    Left,
    Right,
}

/// The orchestrator's input-driven control state.
#[derive(Clone, Copy, Debug, PartialEq, Eq, Structural)]
pub struct ControlState {
    pub render_output_mode: RenderOutputMode,
    pub debug_mode_texture: DebugTexture,
    pub window_mode: WindowMode,
    pub directional_light: DirectionalLight,
    /// Right button held: camera look enabled.
    pub mouse_pressed: bool,
    /// Latched by a left-button press; consumed once by the picking readback.
    pub left_mouse_pressed: bool,
    /// Last recorded mouse coordinate for picking.
    pub mouse_x: u32,
    pub mouse_y: u32,
}

impl ControlState {
    pub open spec fn wf(self) -> bool {
        self.directional_light.wf()
    }

    /// Initial control state: the lit-with-shadow mode, the depth texture
    /// selected for the debug overlay, no buttons held.
    pub fn new(window_mode: WindowMode, directional_light: DirectionalLight) -> (s: ControlState)
        requires
            directional_light.wf(),
        ensures
            s == (ControlState {
                render_output_mode: RenderOutputMode::LitWithShadow,
                debug_mode_texture: DebugTexture::DepthTexture,
                window_mode,
                directional_light,
                mouse_pressed: false,
                left_mouse_pressed: false,
                mouse_x: 0u32,
                mouse_y: 0u32,
            }),
            s.wf(),
    {
        ControlState {
            render_output_mode: RenderOutputMode::LitWithShadow,
            debug_mode_texture: DebugTexture::DepthTexture,
            window_mode,
            directional_light,
            mouse_pressed: false,
            left_mouse_pressed: false,
            mouse_x: 0,
            mouse_y: 0,
        }
    }

    /// The state, handled flag and effect after one key event.
    ///
    /// The mode key, the window-mode key, the present-mode key and the
    /// debug-texture key act on release; the light-distance keys act per
    /// press and only consume the key while the distance can still move; the
    /// rotation keys act per press.
    pub open spec fn after_key_spec(self, key: Key, pressed: bool) -> (
        ControlState,
        bool,
        Option<ControlEffect>,
    ) {
        match key {
            Key::Tab => if !pressed {
                (
                    ControlState {
                        render_output_mode: self.render_output_mode.next_spec(),
                        ..self
                    },
                    true,
                    None,
                )
            } else {
                (self, false, None)
            },
            Key::F11 => if !pressed {
                (
                    ControlState { window_mode: self.window_mode.toggled_spec(), ..self },
                    true,
                    Some(ControlEffect::SetWindowMode(self.window_mode.toggled_spec())),
                )
            } else {
                (self, false, None)
            },
            Key::F1 => if !pressed {
                (self, true, Some(ControlEffect::CyclePresentMode))
            } else {
                (self, false, None)
            },
            Key::Key1 => if !pressed {
                (
                    ControlState {
                        debug_mode_texture: self.debug_mode_texture.toggled_spec(),
                        ..self
                    },
                    true,
                    Some(
                        ControlEffect::RebuildDebugBindGroup(self.debug_mode_texture.toggled_spec()),
                    ),
                )
            } else {
                (self, false, None)
            },
            Key::Key2 => if pressed && self.directional_light.distance > -3000 {
                (
                    ControlState {
                        directional_light: self.directional_light.moved_farther_spec(),
                        ..self
                    },
                    true,
                    None,
                )
            } else {
                (self, false, None)
            },
            Key::Key3 => if pressed && self.directional_light.distance < -100 {
                (
                    ControlState {
                        directional_light: self.directional_light.moved_closer_spec(),
                        ..self
                    },
                    true,
                    None,
                )
            } else {
                (self, false, None)
            },
            Key::R => if pressed {
                (self, true, Some(ControlEffect::RotateDirectionalLight(Axis::X)))
            } else {
                (self, false, None)
            },
            Key::T => if pressed {
                (self, true, Some(ControlEffect::RotateDirectionalLight(Axis::Y)))
            } else {
                (self, false, None)
            },
            Key::Y => if pressed {
                (self, true, Some(ControlEffect::RotateDirectionalLight(Axis::Z)))
            } else {
                (self, false, None)
            },
            _ => (self, false, None),
        }
    }

    /// Route one key event; returns whether it was consumed here and the
    /// effect the caller must perform.
    pub fn handle_key(&mut self, key: Key, state: KeyState) -> (r: (bool, Option<ControlEffect>))
        requires
            old(self).wf(),
        ensures
            (*final(self), r.0, r.1) == old(self).after_key_spec(key, state is Pressed),
            final(self).wf(),
    {
        let pressed = match state {
            KeyState::Pressed => true,
            KeyState::Released => false,
        };
        match key {
            Key::Tab => {
                if !pressed {
                    self.render_output_mode = self.render_output_mode.next();
                    (true, None)
                } else {
                    (false, None)
                }
            },
            Key::F11 => {
                if !pressed {
                    self.window_mode = self.window_mode.toggled();
                    (true, Some(ControlEffect::SetWindowMode(self.window_mode)))
                } else {
                    (false, None)
                }
            },
            Key::F1 => {
                if !pressed {
                    (true, Some(ControlEffect::CyclePresentMode))
                } else {
                    (false, None)
                }
            },
            Key::Key1 => {
                if !pressed {
                    self.debug_mode_texture = self.debug_mode_texture.toggled();
                    (true, Some(ControlEffect::RebuildDebugBindGroup(self.debug_mode_texture)))
                } else {
                    (false, None)
                }
            },
            Key::Key2 => {
                if pressed && self.directional_light.distance > -3000 {
                    self.directional_light.move_farther();
                    (true, None)
                } else {
                    (false, None)
                }
            },
            Key::Key3 => {
                if pressed && self.directional_light.distance < -100 {
                    self.directional_light.move_closer();
                    (true, None)
                } else {
                    (false, None)
                }
            },
            Key::R => {
                if pressed {
                    (true, Some(ControlEffect::RotateDirectionalLight(Axis::X)))
                } else {
                    (false, None)
                }
            },
            Key::T => {
                if pressed {
                    (true, Some(ControlEffect::RotateDirectionalLight(Axis::Y)))
                } else {
                    (false, None)
                }
            },
            Key::Y => {
                if pressed {
                    (true, Some(ControlEffect::RotateDirectionalLight(Axis::Z)))
                } else {
                    (false, None)
                }
            },
            _ => (false, None),
        }
    }

    /// Route one mouse-button event: the right button gates camera look by
    /// its held state; a left press latches a picking request (held frames do
    /// not re-trigger: the latch is only set, and consumed exactly once).
    pub fn handle_mouse_button(&mut self, button: MouseButton, pressed: bool) -> (handled: bool)
        ensures
            handled,
            *final(self) == match button {
                MouseButton::Right => ControlState { mouse_pressed: pressed, ..*old(self) },
                MouseButton::Left => if pressed {
                    ControlState { left_mouse_pressed: true, ..*old(self) }
                } else {
                    *old(self)
                },
            },
    {
        match button {
            MouseButton::Right => {
                self.mouse_pressed = pressed;
                true
            },
            MouseButton::Left => {
                if pressed {
                    self.left_mouse_pressed = true;
                }
                true
            },
        }
    }

    /// Record a mouse coordinate for picking; taken only while a picking
    /// request is latched.
    pub fn record_mouse_position(&mut self, x: u32, y: u32)
        ensures
            *final(self) == if old(self).left_mouse_pressed {
                ControlState { mouse_x: x, mouse_y: y, ..*old(self) }
            } else {
                *old(self)
            },
    {
        if self.left_mouse_pressed {
            self.mouse_x = x;
            self.mouse_y = y;
        }
    }

    /// Consume the latched picking request: reports whether one was pending
    /// and clears it, so a button held across frames triggers exactly one
    /// readback per press edge.
    pub fn take_picking_request(&mut self) -> (pending: bool)
        ensures
            pending == old(self).left_mouse_pressed,
            *final(self) == (ControlState { left_mouse_pressed: false, ..*old(self) }),
    {
        let pending = self.left_mouse_pressed;
        self.left_mouse_pressed = false;
        pending
    }
}

} // verus!
