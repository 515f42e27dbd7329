use kanirenderer_viewer::control::{Axis, ControlEffect, ControlState, MouseButton};
use kanirenderer_viewer::input::{CameraController, Key, KeyState};
use kanirenderer_viewer::lighting::{DirectionalLight, Vec3Words};
use kanirenderer_viewer::render_mode::{DebugTexture, RenderOutputMode, WindowMode};

fn state() -> ControlState {
    let direction = Vec3Words { x: 0, y: (-1.0f32).to_bits(), z: 0 };
    let color = Vec3Words { x: 1.0f32.to_bits(), y: 1.0f32.to_bits(), z: 1.0f32.to_bits() };
    ControlState::new(WindowMode::Windowed, DirectionalLight::new(direction, color))
}

#[test]
fn initial_control_state() {
    let s = state();
    assert_eq!(s.render_output_mode, RenderOutputMode::LitWithShadow);
    assert_eq!(s.debug_mode_texture, DebugTexture::DepthTexture);
    assert!(!s.mouse_pressed);
    assert!(!s.left_mouse_pressed);
}

#[test]
fn mode_key_cycles_on_release_only() {
    let mut s = state();
    let (handled, effect) = s.handle_key(Key::Tab, KeyState::Pressed);
    assert!(!handled);
    assert_eq!(effect, None);
    assert_eq!(s.render_output_mode, RenderOutputMode::LitWithShadow);
    let (handled, effect) = s.handle_key(Key::Tab, KeyState::Released);
    assert!(handled);
    assert_eq!(effect, None);
    assert_eq!(s.render_output_mode, RenderOutputMode::Wireframe);
}

#[test]
fn debug_texture_key_toggles_and_rebuilds_bind_group() {
    let mut s = state();
    let (handled, effect) = s.handle_key(Key::Key1, KeyState::Released);
    assert!(handled);
    assert_eq!(
        effect,
        Some(ControlEffect::RebuildDebugBindGroup(DebugTexture::ShadowTexture))
    );
    assert_eq!(s.debug_mode_texture, DebugTexture::ShadowTexture);
    let (_, effect) = s.handle_key(Key::Key1, KeyState::Released);
    assert_eq!(
        effect,
        Some(ControlEffect::RebuildDebugBindGroup(DebugTexture::DepthTexture))
    );
}

#[test]
fn window_and_present_mode_keys() {
    let mut s = state();
    let (handled, effect) = s.handle_key(Key::F11, KeyState::Released);
    assert!(handled);
    assert_eq!(effect, Some(ControlEffect::SetWindowMode(WindowMode::Fullscreen)));
    assert_eq!(s.window_mode, WindowMode::Fullscreen);
    let (handled, effect) = s.handle_key(Key::F1, KeyState::Released);
    assert!(handled);
    assert_eq!(effect, Some(ControlEffect::CyclePresentMode));
    let (handled, _) = s.handle_key(Key::F1, KeyState::Pressed);
    assert!(!handled);
}

#[test]
fn light_distance_keys_step_and_clamp() {
    let mut s = state();
    let (handled, effect) = s.handle_key(Key::Key2, KeyState::Pressed);
    assert!(handled);
    assert_eq!(effect, None);
    assert_eq!(s.directional_light.distance, -2010);
    assert_eq!(s.directional_light.shadow_scene_size, 3015);
    for _ in 0..200 {
        s.handle_key(Key::Key2, KeyState::Pressed);
    }
    assert_eq!(s.directional_light.distance, -3000);
    // at the bound the key falls through unhandled, as in the key router
    let (handled, _) = s.handle_key(Key::Key2, KeyState::Pressed);
    assert!(!handled);
    let (handled, _) = s.handle_key(Key::Key3, KeyState::Pressed);
    assert!(handled);
    assert_eq!(s.directional_light.distance, -2990);
}

#[test]
fn rotation_keys_emit_axis_effects_on_press() {
    let mut s = state();
    assert_eq!(
        s.handle_key(Key::R, KeyState::Pressed),
        (true, Some(ControlEffect::RotateDirectionalLight(Axis::X)))
    );
    assert_eq!(
        s.handle_key(Key::T, KeyState::Pressed),
        (true, Some(ControlEffect::RotateDirectionalLight(Axis::Y)))
    );
    assert_eq!(
        s.handle_key(Key::Y, KeyState::Pressed),
        (true, Some(ControlEffect::RotateDirectionalLight(Axis::Z)))
    );
    assert_eq!(s.handle_key(Key::R, KeyState::Released), (false, None));
}

#[test]
fn unmapped_key_falls_through() {
    let mut s = state();
    let before = s;
    assert_eq!(s.handle_key(Key::Space, KeyState::Pressed), (false, None));
    assert_eq!(s, before);
}

#[test]
fn picking_latch_triggers_once_per_press_edge() {
    let mut s = state();
    assert!(s.handle_mouse_button(MouseButton::Left, true));
    // held across frames: the latch stays set until consumed, exactly once
    assert!(s.left_mouse_pressed);
    s.record_mouse_position(120, 340);
    assert_eq!((s.mouse_x, s.mouse_y), (120, 340));
    assert!(s.take_picking_request());
    assert!(!s.take_picking_request());
    // release does not latch
    assert!(s.handle_mouse_button(MouseButton::Left, false));
    assert!(!s.left_mouse_pressed);
    // motion without a latched press leaves the coordinate alone
    s.record_mouse_position(7, 7);
    assert_eq!((s.mouse_x, s.mouse_y), (120, 340));
}

#[test]
fn right_button_gates_camera_look() {
    let mut s = state();
    assert!(s.handle_mouse_button(MouseButton::Right, true));
    assert!(s.mouse_pressed);
    assert!(s.handle_mouse_button(MouseButton::Right, false));
    assert!(!s.mouse_pressed);
}

#[test]
fn camera_controller_key_map() {
    let mut c = CameraController::new();
    assert!(c.process_keyboard(Key::W, KeyState::Pressed));
    assert!(c.amount_forward);
    // holding the key repeats the press: no additional effect
    assert!(c.process_keyboard(Key::W, KeyState::Pressed));
    assert!(c.amount_forward);
    assert!(c.process_keyboard(Key::W, KeyState::Released));
    assert!(!c.amount_forward);
    assert!(c.process_keyboard(Key::A, KeyState::Pressed));
    assert!(c.amount_left);
    assert!(c.process_keyboard(Key::S, KeyState::Pressed));
    assert!(c.amount_backward);
    assert!(c.process_keyboard(Key::D, KeyState::Pressed));
    assert!(c.amount_right);
    assert!(c.process_keyboard(Key::Space, KeyState::Pressed));
    assert!(c.amount_up);
    assert!(c.process_keyboard(Key::LShift, KeyState::Pressed));
    assert!(c.amount_down);
    assert!(!c.process_keyboard(Key::Tab, KeyState::Pressed));
}
