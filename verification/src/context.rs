//! Bookkeeping of the swapchain-dependent resources.
//!
//! The depth texture and the debug-overlay bind group that references its
//! view are destroyed and recreated on every resize; all other GPU resources
//! survive. This module tracks their dimensions and identities so that the
//! recorder can never use a stale depth view: the state owns exactly one
//! depth slot (replacing it is what "recreate" means — the old texture is
//! dropped, not kept alongside), and a generation counter stands for the
//! identity of the texture the slot currently holds.

use vstd::prelude::*;
use crate::render_mode::{DebugTexture, PresentMode};

verus! {

/// Dimensions and identities of the resize-dependent resources, plus the
/// present mode the surface is configured with.
#[derive(Clone, Copy, Debug, PartialEq, Eq, Structural)]
pub struct SurfaceState {
    /// Configured surface size in pixels.
    pub width: u32,
    pub height: u32,
    /// Size of the scene depth texture; always the surface size.
    pub depth_width: u32,
    pub depth_height: u32,
    /// Identity of the depth texture currently in the slot; bumped whenever
    /// the texture is recreated.
    pub depth_generation: u64,
    /// Which texture view the debug-overlay bind group references.
    pub debug_bound_texture: DebugTexture,
    /// Identity of the depth texture the bind group was built against; only
    /// meaningful while it references the depth texture (the shadow map
    /// survives resize).
    pub debug_bound_generation: u64,
    /// Present (vsync) mode the surface is configured with.
    pub present_mode: PresentMode,
}

impl SurfaceState {
    /// No frame may observe a resized surface with a stale depth view: the
    /// depth texture always has the surface dimensions, and a debug bind
    /// group referencing the depth texture references the current one.
    pub open spec fn wf(self) -> bool {
        &&& self.depth_width == self.width
        &&& self.depth_height == self.height
        &&& (self.debug_bound_texture is DepthTexture ==> self.debug_bound_generation
            == self.depth_generation)
    }

    /// Initial state: depth texture and debug bind group freshly created for
    /// the given surface size.
    pub fn new(width: u32, height: u32, present_mode: PresentMode) -> (s: SurfaceState)
        requires
            width > 0,
            height > 0,
        ensures
            s == (SurfaceState {
                width,
                height,
                depth_width: width,
                depth_height: height,
                depth_generation: 0,
                debug_bound_texture: DebugTexture::DepthTexture,
                debug_bound_generation: 0,
                present_mode,
            }),
            s.wf(),
    {
        SurfaceState {
            width,
            height,
            depth_width: width,
            depth_height: height,
            depth_generation: 0,
            debug_bound_texture: DebugTexture::DepthTexture,
            debug_bound_generation: 0,
            present_mode,
        }
    }

    /// The state after a resize event: for positive dimensions the surface is
    /// reconfigured, the depth texture is replaced by one of the new size,
    /// and the debug bind group is rebuilt against the new depth view; an
    /// empty size is ignored.
    pub open spec fn resized_spec(self, width: u32, height: u32) -> SurfaceState {
        if width > 0 && height > 0 {
            SurfaceState {
                width,
                height,
                depth_width: width,
                depth_height: height,
                depth_generation: (self.depth_generation + 1) as u64,
                debug_bound_texture: DebugTexture::DepthTexture,
                debug_bound_generation: (self.depth_generation + 1) as u64,
                present_mode: self.present_mode,
            }
        } else {
            self
        }
    }

    /// Apply a resize event.
    pub fn resize(&mut self, width: u32, height: u32)
        requires
            old(self).wf(),
            old(self).depth_generation < u64::MAX,
        ensures
            *final(self) == old(self).resized_spec(width, height),
            final(self).wf(),
    {
        if width > 0 && height > 0 {
            let generation = self.depth_generation + 1;
            self.width = width;
            self.height = height;
            self.depth_width = width;
            self.depth_height = height;
            self.depth_generation = generation;
            self.debug_bound_texture = DebugTexture::DepthTexture;
            self.debug_bound_generation = generation;
        }
    }

    /// Rebuild the debug-overlay bind group against the chosen texture's
    /// current view. Called whenever the selector toggles — the bind group is
    /// rebuilt, never reused, because the referenced view changes.
    pub fn rebind_debug_texture(&mut self, texture: DebugTexture)
        requires
            old(self).wf(),
        ensures
            *final(self) == (SurfaceState {
                debug_bound_texture: texture,
                debug_bound_generation: old(self).depth_generation,
                ..*old(self)
            }),
            final(self).wf(),
    {
        self.debug_bound_texture = texture;
        self.debug_bound_generation = self.depth_generation;
    }

    /// Reconfigure the surface with the next present mode.
    pub fn cycle_present_mode(&mut self)
        requires
            old(self).wf(),
        ensures
            *final(self) == (SurfaceState {
                present_mode: old(self).present_mode.cycled_spec(),
                ..*old(self)
            }),
            final(self).wf(),
    {
        self.present_mode = self.present_mode.cycled();
    }
}

/// Resize is idempotent on dimensions: resizing twice with the same positive
/// size leaves the depth-texture dimensions exactly as after the first
/// resize, namely the requested size. The state owns a single depth slot, so
/// each resize replaces the texture rather than accumulating old ones.
pub proof fn lemma_resize_idempotent_dimensions(s: SurfaceState, width: u32, height: u32)
    requires
        width > 0,
        height > 0,
    ensures
        s.resized_spec(width, height).depth_width == width,
        s.resized_spec(width, height).depth_height == height,
        s.resized_spec(width, height).resized_spec(width, height).depth_width == s.resized_spec(
            width,
            height,
        ).depth_width,
        s.resized_spec(width, height).resized_spec(width, height).depth_height == s.resized_spec(
            width,
            height,
        ).depth_height,
{
}

/// Why acquiring the swapchain image failed.
#[derive(Clone, Copy, Debug, PartialEq, Eq, Structural)]
pub enum SurfaceError {
    /// The surface was lost and must be reconfigured.
    Lost,
    /// The surface no longer matches the window and needs reconfiguration on
    /// the next resize; the frame is skipped.
    Outdated,
    /// The device is out of memory; unrecoverable.
    OutOfMemory,
    /// Acquiring timed out; the frame is skipped.
    Timeout,
}

/// What the frame loop does about a surface error.
#[derive(Clone, Copy, Debug, PartialEq, Eq, Structural)]
pub enum SurfaceErrorAction {
    /// Force a resize-reconfigure with the last known size.
    ReconfigureWithLastSize,
    /// Terminate the loop.
    Exit,
    /// Log and skip this frame; no retry within the frame.
    SkipFrame,
}

/// Recovery policy for a failed swapchain acquire.
pub open spec fn surface_error_action_spec(error: SurfaceError) -> SurfaceErrorAction {
    match error {
        SurfaceError::Lost => SurfaceErrorAction::ReconfigureWithLastSize,
        SurfaceError::OutOfMemory => SurfaceErrorAction::Exit,
        SurfaceError::Outdated => SurfaceErrorAction::SkipFrame,
        SurfaceError::Timeout => SurfaceErrorAction::SkipFrame,
    }
}

/// Decide how the frame loop recovers from a surface error: a lost surface is
/// reconfigured with the last known size, out-of-memory is fatal, anything
/// else skips the frame.
pub fn surface_error_action(error: SurfaceError) -> (action: SurfaceErrorAction)
    ensures
        action == surface_error_action_spec(error),
{
    match error {
        SurfaceError::Lost => SurfaceErrorAction::ReconfigureWithLastSize,
        SurfaceError::OutOfMemory => SurfaceErrorAction::Exit,
        SurfaceError::Outdated => SurfaceErrorAction::SkipFrame,
        SurfaceError::Timeout => SurfaceErrorAction::SkipFrame,
    }
}

} // verus!
