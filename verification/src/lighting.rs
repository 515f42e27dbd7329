//! Lights and their control state: the directional light with its shadow
//! frustum bookkeeping, and the player-movable point light with its keyboard
//! controller.
//!
//! Quantities the renderer only passes through to the GPU (directions,
//! positions, colour words) are carried as opaque 32-bit words; quantities the
//! renderer itself decides on (the light distance, the frustum half-extent,
//! the movable light's range and colour steps) are modelled as integers,
//! which is exact for every state these controls can reach.

use vstd::prelude::*;
use vstd::arithmetic::div_mod::{lemma_div_is_ordered, lemma_hoist_over_denominator};
use crate::input::{Key, KeyState};

verus! {

/// Three GPU words (x, y, z), carried opaquely.
#[derive(Clone, Copy, Debug, PartialEq, Eq, Structural)]
pub struct Vec3Words {
    pub x: u32,
    pub y: u32,
    pub z: u32,
}

/// Three integer-valued components (a colour or position the renderer steps
/// in whole units).
#[derive(Clone, Copy, Debug, PartialEq, Eq, Structural)]
pub struct Vec3Values {
    pub x: i64,
    pub y: i64,
    pub z: i64,
}

/// GPU word holding floating-point one; used for the padding slot the
/// directional uniform fills with one and for the w component of a
/// homogeneous position.
pub const WORD_ONE: u32 = 0x3F80_0000;

/// GPU word holding floating-point two; the fixed directional-light
/// intensity.
pub const WORD_TWO: u32 = 0x4000_0000;

/// The key-adjustable light distance lives on a 10-unit lattice inside
/// [-3000, -100].
pub open spec fn valid_distance(d: i64) -> bool {
    &&& -3000 <= d <= -100
    &&& d % 10 == 0
}

/// Half-extent of the orthographic shadow frustum for a light distance:
/// three halves of the distance magnitude.
pub open spec fn shadow_scene_size_of(d: i64) -> int {
    3 * (-d) / 2
}

/// The frustum half-extent grows strictly with the magnitude of the light
/// distance: of two valid (negative) distances, the one farther from the
/// origin yields the strictly larger frustum.
pub proof fn lemma_shadow_scene_size_monotonic(d1: i64, d2: i64)
    requires
        valid_distance(d1),
        valid_distance(d2),
        d1 < d2,
    ensures
        shadow_scene_size_of(d1) > shadow_scene_size_of(d2),
{
    let m1 = 3 * (-d1 as int);
    let m2 = 3 * (-d2 as int);
    lemma_hoist_over_denominator(m2, 1, 2);
    lemma_div_is_ordered(m2 + 2, m1, 2);
}

/// The directional light: colour and direction words for the uniform, the
/// fixed intensity word, and the signed distance of the light eye along the
/// direction together with the shadow frustum half-extent derived from it.
#[derive(Clone, Copy, Debug, PartialEq, Eq, Structural)]
pub struct DirectionalLight {
    pub color: Vec3Words,
    pub light_direction: Vec3Words,
    pub intensity: u32,
    /// Signed distance of the light eye from the origin along the direction.
    pub distance: i64,
    /// Half-extent of the orthographic shadow frustum. Kept in lock step with
    /// `distance`: a stale frustum after a distance change would make the
    /// shadow pass and the main pass disagree on the light view-projection.
    pub shadow_scene_size: i64,
}

impl DirectionalLight {
    /// The distance is on its lattice and the frustum half-extent is exactly
    /// the one derived from the current distance — never stale.
    pub open spec fn wf(self) -> bool {
        &&& valid_distance(self.distance)
        &&& self.shadow_scene_size == shadow_scene_size_of(self.distance)
    }

    /// A new directional light: given direction and colour, fixed intensity
    /// of two, eye at distance -2000 with the matching frustum.
    pub fn new(direction: Vec3Words, color: Vec3Words) -> (l: DirectionalLight)
        ensures
            l.wf(),
            l.color == color,
            l.light_direction == direction,
            l.intensity == WORD_TWO,
            l.distance == -2000,
    {
        DirectionalLight {
            color,
            light_direction: direction,
            intensity: WORD_TWO,
            distance: -2000,
            shadow_scene_size: 3000,
        }
    }

    /// Replace the direction words (the rotation itself is evaluated by the
    /// caller); everything else is untouched.
    pub fn set_direction(&mut self, direction: Vec3Words)
        ensures
            *final(self) == (DirectionalLight { light_direction: direction, ..*old(self) }),
    {
        self.light_direction = direction;
    }

    /// The light after one step away from the origin: 10 units more distant
    /// unless already at the -3000 bound, the frustum half-extent recomputed
    /// in the same step.
    pub open spec fn moved_farther_spec(self) -> DirectionalLight {
        if self.distance > -3000 {
            DirectionalLight {
                distance: (self.distance - 10) as i64,
                shadow_scene_size: shadow_scene_size_of((self.distance - 10) as i64) as i64,
                ..self
            }
        } else {
            self
        }
    }

    /// The light after one step toward the origin: 10 units less distant
    /// unless already at the -100 bound, the frustum half-extent recomputed
    /// in the same step.
    pub open spec fn moved_closer_spec(self) -> DirectionalLight {
        if self.distance < -100 {
            DirectionalLight {
                distance: (self.distance + 10) as i64,
                shadow_scene_size: shadow_scene_size_of((self.distance + 10) as i64) as i64,
                ..self
            }
        } else {
            self
        }
    }

    /// Move the light eye 10 units farther from the origin, stopping at the
    /// -3000 bound; the frustum half-extent is recomputed in the same step.
    /// Returns whether the key was consumed (it is not at the bound).
    pub fn move_farther(&mut self) -> (handled: bool)
        requires
            old(self).wf(),
        ensures
            final(self).wf(),
            *final(self) == old(self).moved_farther_spec(),
            handled == (old(self).distance > -3000),
    {
        if self.distance > -3000 {
            self.distance = self.distance - 10;
            self.shadow_scene_size = shadow_scene_size_value(self.distance);
            true
        } else {
            false
        }
    }

    /// Move the light eye 10 units closer to the origin, stopping at the
    /// -100 bound; the frustum half-extent is recomputed in the same step.
    pub fn move_closer(&mut self) -> (handled: bool)
        requires
            old(self).wf(),
        ensures
            final(self).wf(),
            *final(self) == old(self).moved_closer_spec(),
            handled == (old(self).distance < -100),
    {
        if self.distance < -100 {
            self.distance = self.distance + 10;
            self.shadow_scene_size = shadow_scene_size_value(self.distance);
            true
        } else {
            false
        }
    }
}

/// Compute the frustum half-extent for a valid distance.
pub fn shadow_scene_size_value(distance: i64) -> (size: i64)
    requires
        -3000 <= distance <= -100,
    ensures
        size == shadow_scene_size_of(distance),
{
    (3 * -distance) / 2
}

/// The player-movable point light: position and yaw words driven by the
/// controller's float integration outside, plus the integer-stepped range and
/// colour the controller owns.
#[derive(Clone, Copy, Debug, PartialEq, Eq, Structural)]
pub struct Light {
    pub position: Vec3Words,
    pub yaw: u32,
    pub range: i64,
    pub color: Vec3Values,
}

impl Light {
    /// A new light with the given state words and values.
    pub fn new(position: Vec3Words, yaw: u32, color: Vec3Values, range: i64) -> (l: Light)
        ensures
            l == (Light { position, yaw, range, color }),
    {
        Light { position, yaw, range, color }
    }
}

/// Add 5, stopping at the top of the representable range (unreachable from
/// the initial state, but the step is total either way).
pub open spec fn step_up(v: i64) -> i64 {
    if v <= i64::MAX - 5 {
        (v + 5) as i64
    } else {
        v
    }
}

/// Subtract 5, stopping at the bottom of the representable range.
pub open spec fn step_down(v: i64) -> i64 {
    if v >= i64::MIN + 5 {
        (v - 5) as i64
    } else {
        v
    }
}

/// Keyboard controller of the movable point light: six held-movement flags,
/// the light range, and the light colour, stepped in whole units.
#[derive(Clone, Copy, Debug, PartialEq, Eq, Structural)]
pub struct MovableLightController {
    pub amount_left: bool,
    pub amount_right: bool,
    pub amount_forward: bool,
    pub amount_backward: bool,
    pub amount_up: bool,
    pub amount_down: bool,
    pub range: i64,
    pub light_color: Vec3Values,
}

impl MovableLightController {
    /// The controller after one key event: movement keys set their held
    /// flag; the range keys step the range by 5 (growing only above range 32,
    /// shrinking only below 12800); the bracket keys step every colour
    /// channel by 5 (down only while the red channel is positive, up only
    /// while it is below 10000). All of these consume the key even when the
    /// guard blocks the step; other keys leave the controller unchanged.
    pub open spec fn after_key_spec(self, key: Key, pressed: bool) -> (
        MovableLightController,
        bool,
    ) {
        match key {
            Key::I | Key::Up => (MovableLightController { amount_forward: pressed, ..self }, true),
            Key::K | Key::Down => (
                MovableLightController { amount_backward: pressed, ..self },
                true,
            ),
            Key::J | Key::Left => (MovableLightController { amount_left: pressed, ..self }, true),
            Key::L | Key::Right => (MovableLightController { amount_right: pressed, ..self }, true),
            Key::U => (MovableLightController { amount_up: pressed, ..self }, true),
            Key::O => (MovableLightController { amount_down: pressed, ..self }, true),
            Key::Equals => (
                if pressed && self.range > 32 {
                    MovableLightController { range: step_up(self.range), ..self }
                } else {
                    self
                },
                true,
            ),
            Key::Minus => (
                if pressed && self.range < 12800 {
                    MovableLightController { range: step_down(self.range), ..self }
                } else {
                    self
                },
                true,
            ),
            Key::LBracket => (
                if pressed && self.light_color.x > 0 {
                    MovableLightController {
                        light_color: Vec3Values {
                            x: step_down(self.light_color.x),
                            y: step_down(self.light_color.y),
                            z: step_down(self.light_color.z),
                        },
                        ..self
                    }
                } else {
                    self
                },
                true,
            ),
            Key::RBracket => (
                if pressed && self.light_color.x < 10000 {
                    MovableLightController {
                        light_color: Vec3Values {
                            x: step_up(self.light_color.x),
                            y: step_up(self.light_color.y),
                            z: step_up(self.light_color.z),
                        },
                        ..self
                    }
                } else {
                    self
                },
                true,
            ),
            _ => (self, false),
        }
    }

    /// A fresh controller: nothing held, the given range and colour.
    pub fn new(light_range: i64, light_color: Vec3Values) -> (c: MovableLightController)
        ensures
            c == (MovableLightController {
                amount_left: false,
                amount_right: false,
                amount_forward: false,
                amount_backward: false,
                amount_up: false,
                amount_down: false,
                range: light_range,
                light_color,
            }),
    {
        MovableLightController {
            amount_left: false,
            amount_right: false,
            amount_forward: false,
            amount_backward: false,
            amount_up: false,
            amount_down: false,
            range: light_range,
            light_color,
        }
    }

    /// Record one key event.
    pub fn process_keyboard(&mut self, key: Key, state: KeyState) -> (handled: bool)
        ensures
            (*final(self), handled) == old(self).after_key_spec(key, state is Pressed),
    {
        let pressed = match state {
            KeyState::Pressed => true,
            KeyState::Released => false,
        };
        match key {
            Key::I | Key::Up => {
                self.amount_forward = pressed;
                true
            },
            Key::K | Key::Down => {
                self.amount_backward = pressed;
                true
            },
            Key::J | Key::Left => {
                self.amount_left = pressed;
                true
            },
            Key::L | Key::Right => {
                self.amount_right = pressed;
                true
            },
            Key::U => {
                self.amount_up = pressed;
                true
            },
            Key::O => {
                self.amount_down = pressed;
                true
            },
            Key::Equals => {
                if pressed && self.range > 32 {
                    self.range = step_up_value(self.range);
                }
                true
            },
            Key::Minus => {
                if pressed && self.range < 12800 {
                    self.range = step_down_value(self.range);
                }
                true
            },
            Key::LBracket => {
                if pressed && self.light_color.x > 0 {
                    self.light_color = Vec3Values {
                        x: step_down_value(self.light_color.x),
                        y: step_down_value(self.light_color.y),
                        z: step_down_value(self.light_color.z),
                    };
                }
                true
            },
            Key::RBracket => {
                if pressed && self.light_color.x < 10000 {
                    self.light_color = Vec3Values {
                        x: step_up_value(self.light_color.x),
                        y: step_up_value(self.light_color.y),
                        z: step_up_value(self.light_color.z),
                    };
                }
                true
            },
            _ => false,
        }
    }

    /// Copy the controller-owned range and colour into the light it drives;
    /// the position words were integrated by the caller.
    pub fn apply_to_light(&self, light: &mut Light, position: Vec3Words)
        ensures
            *final(light) == (Light {
                position,
                yaw: old(light).yaw,
                range: self.range,
                color: self.light_color,
            }),
    {
        light.position = position;
        light.range = self.range;
        light.color = self.light_color;
    }
}

/// Add 5 to a value, stopping at the top of the representable range.
pub fn step_up_value(v: i64) -> (r: i64)
    ensures
        r == step_up(v),
{
    if v <= i64::MAX - 5 {
        v + 5
    } else {
        v
    }
}

/// Subtract 5 from a value, stopping at the bottom of the representable
/// range.
pub fn step_down_value(v: i64) -> (r: i64)
    ensures
        r == step_down(v),
{
    if v >= i64::MIN + 5 {
        v - 5
    } else {
        v
    }
}

} // verus!
