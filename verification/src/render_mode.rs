//! The render-mode state machine of the main pass, the debug-texture
//! selector, and the present-mode ring, together with the table that says
//! which bind groups and which pipeline each mode uses.

use vstd::prelude::*;

verus! {

/// Output mode of the main pass. A dedicated key cycles through the modes in
/// the fixed ring order `Unlit -> Lit -> LitWithShadow -> Wireframe ->
/// DebugLitWithShadow -> Unlit`.
#[derive(Clone, Copy, Debug, PartialEq, Eq, Structural)]
pub enum RenderOutputMode {
    Unlit,
    Lit,
    LitWithShadow,
    Wireframe,
    DebugLitWithShadow,
}

/// Which graphics pipeline the main pass binds for a mode.
#[derive(Clone, Copy, Debug, PartialEq, Eq, Structural)]
pub enum MainPipeline {
    Unlit,
    Lit,
    LitShadow,
    Wireframe,
}

/// The set of bind groups the main pass attaches for a mode: the per-material
/// textures, the camera uniform, the light buffers, and the shadow map with
/// its comparison sampler.
#[derive(Clone, Copy, Debug, PartialEq, Eq, Structural)]
pub struct BindGroupSet {
    pub material: bool,
    pub camera: bool,
    pub light: bool,
    pub shadow: bool,
}

impl RenderOutputMode {
    /// Successor in the ring order of the mode key.
    pub open spec fn next_spec(self) -> RenderOutputMode {
        match self {
            RenderOutputMode::Unlit => RenderOutputMode::Lit,
            RenderOutputMode::Lit => RenderOutputMode::LitWithShadow,
            RenderOutputMode::LitWithShadow => RenderOutputMode::Wireframe,
            RenderOutputMode::Wireframe => RenderOutputMode::DebugLitWithShadow,
            RenderOutputMode::DebugLitWithShadow => RenderOutputMode::Unlit,
        }
    }

    /// Advance to the next mode in the ring order.
    pub fn next(self) -> (r: RenderOutputMode)
        ensures
            r == self.next_spec(),
    {
        match self {
            RenderOutputMode::Unlit => RenderOutputMode::Lit,
            RenderOutputMode::Lit => RenderOutputMode::LitWithShadow,
            RenderOutputMode::LitWithShadow => RenderOutputMode::Wireframe,
            RenderOutputMode::Wireframe => RenderOutputMode::DebugLitWithShadow,
            RenderOutputMode::DebugLitWithShadow => RenderOutputMode::Unlit,
        }
    }

    /// A frame in this mode records the shadow depth pass before the main
    /// pass; the other modes never sample the shadow map, so the pass is
    /// skipped for them.
    pub open spec fn needs_shadow_pass_spec(self) -> bool {
        self is LitWithShadow || self is DebugLitWithShadow
    }

    /// Whether the shadow depth pass runs for this mode.
    pub fn needs_shadow_pass(self) -> (r: bool)
        ensures
            r == self.needs_shadow_pass_spec(),
    {
        match self {
            RenderOutputMode::LitWithShadow => true,
            RenderOutputMode::DebugLitWithShadow => true,
            _ => false,
        }
    }

    /// Only the debug mode composites the debug-texture quad and the
    /// frame-time graph over the scene.
    pub open spec fn shows_debug_overlays_spec(self) -> bool {
        self is DebugLitWithShadow
    }

    /// Whether the overlay passes run for this mode.
    pub fn shows_debug_overlays(self) -> (r: bool)
        ensures
            r == self.shows_debug_overlays_spec(),
    {
        match self {
            RenderOutputMode::DebugLitWithShadow => true,
            _ => false,
        }
    }

    /// The bind groups the main pass attaches in this mode: material and
    /// camera always; the light buffers from `Lit` on; the shadow map only in
    /// the modes that sample it (the wireframe pipeline shares the
    /// shadow-capable layout).
    pub open spec fn bind_group_set_spec(self) -> BindGroupSet {
        match self {
            RenderOutputMode::Unlit => BindGroupSet {
                material: true,
                camera: true,
                light: false,
                shadow: false,
            },
            RenderOutputMode::Lit => BindGroupSet {
                material: true,
                camera: true,
                light: true,
                shadow: false,
            },
            RenderOutputMode::LitWithShadow => BindGroupSet {
                material: true,
                camera: true,
                light: true,
                shadow: true,
            },
            RenderOutputMode::Wireframe => BindGroupSet {
                material: true,
                camera: true,
                light: true,
                shadow: true,
            },
            RenderOutputMode::DebugLitWithShadow => BindGroupSet {
                material: true,
                camera: true,
                light: true,
                shadow: true,
            },
        }
    }

    /// The bind-group table for this mode.
    pub fn bind_group_set(self) -> (r: BindGroupSet)
        ensures
            r == self.bind_group_set_spec(),
    {
        match self {
            RenderOutputMode::Unlit => BindGroupSet {
                material: true,
                camera: true,
                light: false,
                shadow: false,
            },
            RenderOutputMode::Lit => BindGroupSet {
                material: true,
                camera: true,
                light: true,
                shadow: false,
            },
            _ => BindGroupSet { material: true, camera: true, light: true, shadow: true },
        }
    }

    /// Which pipeline the main pass binds in this mode. The debug mode draws
    /// the scene with the same lit-with-shadow pipeline and adds overlays.
    pub open spec fn pipeline_spec(self) -> MainPipeline {
        match self {
            RenderOutputMode::Unlit => MainPipeline::Unlit,
            RenderOutputMode::Lit => MainPipeline::Lit,
            RenderOutputMode::LitWithShadow => MainPipeline::LitShadow,
            RenderOutputMode::Wireframe => MainPipeline::Wireframe,
            RenderOutputMode::DebugLitWithShadow => MainPipeline::LitShadow,
        }
    }

    /// The pipeline for this mode.
    pub fn pipeline(self) -> (r: MainPipeline)
        ensures
            r == self.pipeline_spec(),
    {
        match self {
            RenderOutputMode::Unlit => MainPipeline::Unlit,
            RenderOutputMode::Lit => MainPipeline::Lit,
            RenderOutputMode::LitWithShadow => MainPipeline::LitShadow,
            RenderOutputMode::Wireframe => MainPipeline::Wireframe,
            RenderOutputMode::DebugLitWithShadow => MainPipeline::LitShadow,
        }
    }
}

/// The mode ring is a closed cycle of length five: from any mode, five
/// presses of the mode key return to the same mode.
pub proof fn lemma_mode_cycle_closed(m: RenderOutputMode)
    ensures
        m.next_spec().next_spec().next_spec().next_spec().next_spec() == m,
{
}

/// Which depth-capable texture the debug overlay samples.
#[derive(Clone, Copy, Debug, PartialEq, Eq, Structural)]
pub enum DebugTexture {
    DepthTexture,
    ShadowTexture,
}

impl DebugTexture {
    /// The other selection.
    pub open spec fn toggled_spec(self) -> DebugTexture {
        match self {
            DebugTexture::DepthTexture => DebugTexture::ShadowTexture,
            DebugTexture::ShadowTexture => DebugTexture::DepthTexture,
        }
    }

    /// Toggle between the scene depth texture and the shadow map.
    pub fn toggled(self) -> (r: DebugTexture)
        ensures
            r == self.toggled_spec(),
    {
        match self {
            DebugTexture::DepthTexture => DebugTexture::ShadowTexture,
            DebugTexture::ShadowTexture => DebugTexture::DepthTexture,
        }
    }
}

/// Toggling the debug-texture selector twice returns to the start.
pub proof fn lemma_debug_texture_toggle_involution(t: DebugTexture)
    ensures
        t.toggled_spec().toggled_spec() == t,
{
}

/// Presentation (vsync) mode of the surface, cycled by its own key.
#[derive(Clone, Copy, Debug, PartialEq, Eq, Structural)]
pub enum PresentMode {
    AutoVsync,
    AutoNoVsync,
    Fifo,
    FifoRelaxed,
    Immediate,
    Mailbox,
}

impl PresentMode {
    /// Successor under the present-mode key: the main ring is
    /// `AutoVsync -> AutoNoVsync -> Fifo -> Immediate -> AutoVsync`; the two
    /// modes outside the ring fall into it.
    pub open spec fn cycled_spec(self) -> PresentMode {
        match self {
            PresentMode::AutoVsync => PresentMode::AutoNoVsync,
            PresentMode::AutoNoVsync => PresentMode::Fifo,
            PresentMode::Fifo => PresentMode::Immediate,
            PresentMode::FifoRelaxed => PresentMode::Immediate,
            PresentMode::Immediate => PresentMode::AutoVsync,
            PresentMode::Mailbox => PresentMode::AutoVsync,
        }
    }

    /// Advance to the next present mode.
    pub fn cycled(self) -> (r: PresentMode)
        ensures
            r == self.cycled_spec(),
    {
        match self {
            PresentMode::AutoVsync => PresentMode::AutoNoVsync,
            PresentMode::AutoNoVsync => PresentMode::Fifo,
            PresentMode::Fifo => PresentMode::Immediate,
            PresentMode::FifoRelaxed => PresentMode::Immediate,
            PresentMode::Immediate => PresentMode::AutoVsync,
            PresentMode::Mailbox => PresentMode::AutoVsync,
        }
    }
}

/// Windowed or borderless-fullscreen presentation.
#[derive(Clone, Copy, Debug, PartialEq, Eq, Structural)]
pub enum WindowMode {
    Fullscreen,
    Windowed,
}

impl WindowMode {
    /// The other window mode.
    pub open spec fn toggled_spec(self) -> WindowMode {
        match self {
            WindowMode::Fullscreen => WindowMode::Windowed,
            WindowMode::Windowed => WindowMode::Fullscreen,
        }
    }

    /// Toggle between fullscreen and windowed presentation.
    pub fn toggled(self) -> (r: WindowMode)
        ensures
            r == self.toggled_spec(),
    {
        match self {
            WindowMode::Fullscreen => WindowMode::Windowed,
            WindowMode::Windowed => WindowMode::Fullscreen,
        }
    }
}

} // verus!
