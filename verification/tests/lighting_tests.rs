use kanirenderer_viewer::input::{Key, KeyState};
use kanirenderer_viewer::lighting::{
    DirectionalLight, Light, MovableLightController, Vec3Values, Vec3Words, WORD_ONE, WORD_TWO,
};

fn white() -> Vec3Words {
    let one = 1.0f32.to_bits();
    Vec3Words { x: one, y: one, z: one }
}

fn down_direction() -> Vec3Words {
    Vec3Words { x: 0.0f32.to_bits(), y: (-0.9902682f32).to_bits(), z: (-0.1391731f32).to_bits() }
}

#[test]
fn word_constants_are_float_bit_patterns() {
    assert_eq!(WORD_ONE, 1.0f32.to_bits());
    assert_eq!(WORD_TWO, 2.0f32.to_bits());
}

#[test]
fn new_directional_light_state() {
    let l = DirectionalLight::new(down_direction(), white());
    assert_eq!(l.distance, -2000);
    assert_eq!(l.shadow_scene_size, 3000);
    assert_eq!(l.intensity, WORD_TWO);
    assert_eq!(l.light_direction, down_direction());
    assert_eq!(l.color, white());
}

#[test]
fn distance_steps_track_frustum_size() {
    let mut l = DirectionalLight::new(down_direction(), white());
    assert!(l.move_farther());
    assert_eq!(l.distance, -2010);
    assert_eq!(l.shadow_scene_size, 3015);
    assert!(l.move_closer());
    assert!(l.move_closer());
    assert_eq!(l.distance, -1990);
    assert_eq!(l.shadow_scene_size, 2985);
}

#[test]
fn distance_clamps_at_far_bound() {
    let mut l = DirectionalLight::new(down_direction(), white());
    for _ in 0..100 {
        l.move_farther();
    }
    assert_eq!(l.distance, -3000);
    assert_eq!(l.shadow_scene_size, 4500);
    assert!(!l.move_farther());
    assert_eq!(l.distance, -3000);
}

#[test]
fn distance_clamps_at_near_bound() {
    let mut l = DirectionalLight::new(down_direction(), white());
    for _ in 0..190 {
        l.move_closer();
    }
    assert_eq!(l.distance, -100);
    assert_eq!(l.shadow_scene_size, 150);
    assert!(!l.move_closer());
    assert_eq!(l.distance, -100);
}

#[test]
fn frustum_size_monotone_in_distance_magnitude() {
    // the half-extent tracks three halves of the distance magnitude
    let mut near = DirectionalLight::new(down_direction(), white());
    for _ in 0..100 {
        near.move_closer();
    }
    let far = DirectionalLight::new(down_direction(), white());
    assert_eq!(near.distance, -1000);
    assert_eq!(near.shadow_scene_size, 1500);
    assert_eq!(far.shadow_scene_size, 3000);
    assert!(far.shadow_scene_size > near.shadow_scene_size);
}

#[test]
fn set_direction_keeps_other_fields() {
    let mut l = DirectionalLight::new(down_direction(), white());
    let d = Vec3Words { x: 0, y: WORD_ONE, z: 0 };
    l.set_direction(d);
    assert_eq!(l.light_direction, d);
    assert_eq!(l.distance, -2000);
    assert_eq!(l.color, white());
}

fn controller() -> MovableLightController {
    MovableLightController::new(256, Vec3Values { x: 20, y: 20, z: 20 })
}

#[test]
fn movement_keys_set_held_flags() {
    let mut c = controller();
    assert!(c.process_keyboard(Key::I, KeyState::Pressed));
    assert!(c.amount_forward);
    assert!(c.process_keyboard(Key::I, KeyState::Pressed));
    assert!(c.amount_forward);
    assert!(c.process_keyboard(Key::I, KeyState::Released));
    assert!(!c.amount_forward);
    assert!(c.process_keyboard(Key::Up, KeyState::Pressed));
    assert!(c.amount_forward);
    assert!(c.process_keyboard(Key::O, KeyState::Pressed));
    assert!(c.amount_down);
    assert!(!c.process_keyboard(Key::W, KeyState::Pressed));
}

#[test]
fn range_grows_only_above_threshold() {
    let mut c = controller();
    assert!(c.process_keyboard(Key::Equals, KeyState::Pressed));
    assert_eq!(c.range, 261);
    // a release is consumed but does not step
    assert!(c.process_keyboard(Key::Equals, KeyState::Released));
    assert_eq!(c.range, 261);
    let mut low = MovableLightController::new(30, Vec3Values { x: 20, y: 20, z: 20 });
    assert!(low.process_keyboard(Key::Equals, KeyState::Pressed));
    assert_eq!(low.range, 30);
}

#[test]
fn range_shrinks_only_below_ceiling() {
    let mut c = controller();
    assert!(c.process_keyboard(Key::Minus, KeyState::Pressed));
    assert_eq!(c.range, 251);
    let mut high = MovableLightController::new(12800, Vec3Values { x: 20, y: 20, z: 20 });
    assert!(high.process_keyboard(Key::Minus, KeyState::Pressed));
    assert_eq!(high.range, 12800);
    let mut below = MovableLightController::new(12795, Vec3Values { x: 20, y: 20, z: 20 });
    assert!(below.process_keyboard(Key::Minus, KeyState::Pressed));
    assert_eq!(below.range, 12790);
}

#[test]
fn color_steps_gate_on_red_channel() {
    let mut c = controller();
    assert!(c.process_keyboard(Key::LBracket, KeyState::Pressed));
    assert_eq!(c.light_color, Vec3Values { x: 15, y: 15, z: 15 });
    let mut dark = MovableLightController::new(256, Vec3Values { x: 0, y: 0, z: 0 });
    assert!(dark.process_keyboard(Key::LBracket, KeyState::Pressed));
    assert_eq!(dark.light_color, Vec3Values { x: 0, y: 0, z: 0 });
    assert!(dark.process_keyboard(Key::RBracket, KeyState::Pressed));
    assert_eq!(dark.light_color, Vec3Values { x: 5, y: 5, z: 5 });
    let mut bright = MovableLightController::new(256, Vec3Values { x: 10000, y: 10000, z: 10000 });
    assert!(bright.process_keyboard(Key::RBracket, KeyState::Pressed));
    assert_eq!(bright.light_color, Vec3Values { x: 10000, y: 10000, z: 10000 });
}

#[test]
fn apply_to_light_copies_controller_state() {
    let c = controller();
    let mut light = Light::new(
        Vec3Words { x: 0, y: 0, z: 0 },
        0,
        Vec3Values { x: 1, y: 1, z: 1 },
        1,
    );
    let pos = Vec3Words { x: 7, y: 8, z: 9 };
    c.apply_to_light(&mut light, pos);
    assert_eq!(light.position, pos);
    assert_eq!(light.range, 256);
    assert_eq!(light.color, Vec3Values { x: 20, y: 20, z: 20 });
}
