use kanirenderer_viewer::context::{
    surface_error_action, SurfaceError, SurfaceErrorAction, SurfaceState,
};
use kanirenderer_viewer::render_mode::{DebugTexture, PresentMode};

#[test]
fn new_surface_state() {
    let s = SurfaceState::new(1440, 1080, PresentMode::AutoVsync);
    assert_eq!((s.width, s.height), (1440, 1080));
    assert_eq!((s.depth_width, s.depth_height), (1440, 1080));
    assert_eq!(s.depth_generation, 0);
    assert_eq!(s.debug_bound_texture, DebugTexture::DepthTexture);
    assert_eq!(s.debug_bound_generation, 0);
}

#[test]
fn resize_replaces_depth_texture_and_rebinds_overlay() {
    let mut s = SurfaceState::new(1440, 1080, PresentMode::AutoVsync);
    s.rebind_debug_texture(DebugTexture::ShadowTexture);
    s.resize(800, 600);
    assert_eq!((s.depth_width, s.depth_height), (800, 600));
    assert_eq!(s.depth_generation, 1);
    // the rebuilt bind group references the new depth view
    assert_eq!(s.debug_bound_texture, DebugTexture::DepthTexture);
    assert_eq!(s.debug_bound_generation, 1);
}

#[test]
fn resize_twice_with_same_size_is_idempotent_on_dimensions() {
    let mut s = SurfaceState::new(1440, 1080, PresentMode::AutoVsync);
    s.resize(800, 600);
    let first = (s.depth_width, s.depth_height);
    s.resize(800, 600);
    // dimensions unchanged; the single depth slot was replaced, not grown
    assert_eq!((s.depth_width, s.depth_height), first);
    assert_eq!(first, (800, 600));
}

#[test]
fn empty_resize_is_ignored() {
    let mut s = SurfaceState::new(1440, 1080, PresentMode::AutoVsync);
    s.resize(0, 600);
    assert_eq!((s.width, s.height), (1440, 1080));
    assert_eq!(s.depth_generation, 0);
    s.resize(800, 0);
    assert_eq!((s.width, s.height), (1440, 1080));
}

#[test]
fn rebind_tracks_current_depth_generation() {
    let mut s = SurfaceState::new(1440, 1080, PresentMode::AutoVsync);
    s.resize(800, 600);
    s.rebind_debug_texture(DebugTexture::ShadowTexture);
    assert_eq!(s.debug_bound_texture, DebugTexture::ShadowTexture);
    s.rebind_debug_texture(DebugTexture::DepthTexture);
    assert_eq!(s.debug_bound_generation, s.depth_generation);
}

#[test]
fn cycle_present_mode_reconfigures_only_present_mode() {
    let mut s = SurfaceState::new(1440, 1080, PresentMode::AutoVsync);
    s.cycle_present_mode();
    assert_eq!(s.present_mode, PresentMode::AutoNoVsync);
    assert_eq!((s.width, s.height), (1440, 1080));
}

#[test]
fn surface_error_policy() {
    assert_eq!(
        surface_error_action(SurfaceError::Lost),
        SurfaceErrorAction::ReconfigureWithLastSize
    );
    assert_eq!(surface_error_action(SurfaceError::OutOfMemory), SurfaceErrorAction::Exit);
    assert_eq!(surface_error_action(SurfaceError::Outdated), SurfaceErrorAction::SkipFrame);
    assert_eq!(surface_error_action(SurfaceError::Timeout), SurfaceErrorAction::SkipFrame);
}
