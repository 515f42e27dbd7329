//! The per-frame pass plan.
//!
//! Each frame the orchestrator turns the current render mode and the loaded
//! models into an ordered list of pass plans: an optional shadow depth pass,
//! the main pass with its pipeline and bind-group set, and — in the debug
//! mode — the debug-texture overlay and the frame-time overlay, composited
//! over the scene. The recorder walks the list in order on a single command
//! encoder, so the plan order is the GPU execution order; the contracts here
//! pin the order down, in particular that the shadow map is rendered before
//! the main pass samples it.
//!
//! Draw parameters may be prepared per model in parallel, but the plan is a
//! single sequence precisely because pass recording must have one exclusive
//! writer.

use vstd::prelude::*;
use crate::render_mode::{BindGroupSet, DebugTexture, MainPipeline, RenderOutputMode};

verus! {

/// One mesh of a loaded model: how many indices to draw and which material
/// slot it uses.
#[derive(Clone, Copy, Debug, PartialEq, Eq)]
pub struct MeshDesc {
    pub index_count: u32,
    pub material: usize,
}

/// A loaded model: its meshes, how many materials it carries, and how many
/// instances its instance buffer holds.
#[derive(Clone, Debug, PartialEq, Eq)]
pub struct ModelDesc {
    pub meshes: Vec<MeshDesc>,
    pub material_count: usize,
    pub instance_count: u32,
}

impl ModelDesc {
    /// The loader guarantees at least one (fallback) material per model, so a
    /// draw can always bind its material and never samples an unbound
    /// texture; every mesh's material slot is in range.
    pub open spec fn wf(self) -> bool {
        &&& self.material_count >= 1
        &&& forall|j: int|
            0 <= j < self.meshes@.len() ==> (#[trigger] self.meshes@[j]).material
                < self.material_count
    }
}

/// One recorded draw: which mesh of which model, its index and instance
/// counts, and the material slot bound for it (none in the depth-only shadow
/// pass, which binds no textures).
#[derive(Clone, Copy, Debug, PartialEq, Eq)]
pub struct DrawCall {
    pub model: usize,
    pub mesh: usize,
    pub index_count: u32,
    pub instance_count: u32,
    pub material: Option<usize>,
}

/// What a pass loads into its colour target before drawing.
#[derive(Clone, Copy, Debug, PartialEq, Eq, Structural)]
pub enum ColorLoad {
    /// Clear to the background colour (the main pass starts the image).
    Clear,
    /// Keep the existing image (overlays composite over the scene).
    Load,
}

/// One pass of the frame, in recording order.
#[derive(Clone, Debug, PartialEq, Eq)]
pub enum PassPlan {
    /// Depth-only pass from the directional light's point of view into the
    /// shadow map; position attributes only, no colour target.
    Shadow { draws: Vec<DrawCall> },
    /// The scene pass: one pipeline and bind-group set chosen by the render
    /// mode.
    Main { pipeline: MainPipeline, binds: BindGroupSet, draws: Vec<DrawCall> },
    /// Full-screen quad visualizing the selected depth-capable texture.
    DebugOverlay { texture: DebugTexture },
    /// Line-strip overlay of the rolling frame-time graph.
    FrameTimeOverlay,
}

impl PassPlan {
    /// The colour load operation of the pass: the main pass clears, the
    /// overlays load so they composite over the lit scene, and the shadow
    /// pass has no colour target at all.
    pub open spec fn color_load_spec(self) -> Option<ColorLoad> {
        match self {
            PassPlan::Shadow { .. } => None,
            PassPlan::Main { .. } => Some(ColorLoad::Clear),
            PassPlan::DebugOverlay { .. } => Some(ColorLoad::Load),
            PassPlan::FrameTimeOverlay => Some(ColorLoad::Load),
        }
    }

    /// The colour load operation of the pass.
    pub fn color_load(&self) -> (r: Option<ColorLoad>)
        ensures
            r == self.color_load_spec(),
    {
        match self {
            PassPlan::Shadow { .. } => None,
            PassPlan::Main { .. } => Some(ColorLoad::Clear),
            PassPlan::DebugOverlay { .. } => Some(ColorLoad::Load),
            PassPlan::FrameTimeOverlay => Some(ColorLoad::Load),
        }
    }
}

/// The draw of one mesh of one model.
pub open spec fn draw_of(m: ModelDesc, model: int, mesh: int, with_material: bool) -> DrawCall {
    DrawCall {
        model: model as usize,
        mesh: mesh as usize,
        index_count: m.meshes@[mesh].index_count,
        instance_count: m.instance_count,
        material: if with_material {
            Some(m.meshes@[mesh].material)
        } else {
            None
        },
    }
}

/// All draws of one model, one per mesh, in mesh order.
pub open spec fn model_draws(m: ModelDesc, model: int, with_material: bool) -> Seq<DrawCall> {
    Seq::new(m.meshes@.len(), |j: int| draw_of(m, model, j, with_material))
}

/// All draws of all models, in model order then mesh order.
pub open spec fn all_draws(models: Seq<ModelDesc>, with_material: bool) -> Seq<DrawCall>
    decreases models.len(),
{
    if models.len() == 0 {
        Seq::empty()
    } else {
        all_draws(models.drop_last(), with_material) + model_draws(
            models.last(),
            models.len() - 1,
            with_material,
        )
    }
}

/// Shape of a frame plan for a mode: the shadow pass first exactly when the
/// mode samples the shadow map; then the main pass with the mode's pipeline
/// and bind groups drawing every mesh of every model; then, in the debug mode
/// only, the debug-texture overlay against the current selector followed by
/// the frame-time overlay.
pub open spec fn plan_shape(
    plan: Seq<PassPlan>,
    mode: RenderOutputMode,
    debug_texture: DebugTexture,
    models: Seq<ModelDesc>,
) -> bool {
    let s: int = if mode.needs_shadow_pass_spec() {
        1
    } else {
        0
    };
    &&& plan.len() == s + 1 + if mode.shows_debug_overlays_spec() {
        2int
    } else {
        0int
    }
    &&& (mode.needs_shadow_pass_spec() ==> (plan[0] matches PassPlan::Shadow { draws }
        && draws@ == all_draws(models, false)))
    &&& (plan[s] matches PassPlan::Main { pipeline, binds, draws } && pipeline
        == mode.pipeline_spec() && binds == mode.bind_group_set_spec() && draws@ == all_draws(
        models,
        true,
    ))
    &&& (mode.shows_debug_overlays_spec() ==> (plan[s + 1] matches PassPlan::DebugOverlay {
        texture,
    } && texture == debug_texture) && plan[s + 2] is FrameTimeOverlay)
}

/// Pass-ordering law of the plan shape: every plan has exactly one main
/// pass, and a shadow pass, when present, is recorded before it — the shadow
/// map is complete before the pass that samples it.
pub proof fn lemma_plan_pass_order(
    plan: Seq<PassPlan>,
    mode: RenderOutputMode,
    debug_texture: DebugTexture,
    models: Seq<ModelDesc>,
)
    requires
        plan_shape(plan, mode, debug_texture, models),
    ensures
        exists|j: int| 0 <= j < plan.len() && #[trigger] (plan[j]) is Main,
        forall|i: int, j: int|
            0 <= i < plan.len() && 0 <= j < plan.len() && #[trigger] (plan[i]) is Shadow
                && #[trigger] (plan[j]) is Main ==> i < j,
        forall|i: int, j: int|
            0 <= i < plan.len() && 0 <= j < plan.len() && #[trigger] (plan[i]) is Main
                && #[trigger] (plan[j]) is Main ==> i == j,
{
    let s: int = if mode.needs_shadow_pass_spec() {
        1
    } else {
        0
    };
    assert(plan[s] is Main);
}

/// Collect the draws of every mesh of every model, a material bound per draw
/// when the pass binds materials.
fn build_draws(models: &Vec<ModelDesc>, with_material: bool) -> (v: Vec<DrawCall>)
    ensures
        v@ == all_draws(models@, with_material),
{
    let mut v: Vec<DrawCall> = Vec::new();
    let mut i: usize = 0;
    while i < models.len()
        invariant
            i <= models@.len(),
            v@ == all_draws(models@.subrange(0, i as int), with_material),
        decreases models@.len() - i,
    {
        let m = &models[i];
        let mut j: usize = 0;
        while j < m.meshes.len()
            invariant
                i < models@.len(),
                *m == models@[i as int],
                j <= m.meshes@.len(),
                v@ == all_draws(models@.subrange(0, i as int), with_material) + model_draws(
                    *m,
                    i as int,
                    with_material,
                ).subrange(0, j as int),
            decreases m.meshes@.len() - j,
        {
            let mesh = &m.meshes[j];
            let call = DrawCall {
                model: i,
                mesh: j,
                index_count: mesh.index_count,
                instance_count: m.instance_count,
                material: if with_material {
                    Some(mesh.material)
                } else {
                    None
                },
            };
            v.push(call);
            proof {
                assert(model_draws(*m, i as int, with_material).subrange(0, j + 1 as int)
                    =~= model_draws(*m, i as int, with_material).subrange(0, j as int).push(call));
            }
            j = j + 1;
        }
        proof {
            let upto = models@.subrange(0, i + 1 as int);
            assert(upto.drop_last() =~= models@.subrange(0, i as int));
            assert(model_draws(*m, i as int, with_material).subrange(
                0,
                m.meshes@.len() as int,
            ) =~= model_draws(*m, i as int, with_material));
        }
        i = i + 1;
    }
    proof {
        assert(models@.subrange(0, models@.len() as int) =~= models@);
    }
    v
}

/// Build the frame plan for the current mode, debug-texture selection and
/// loaded models.
pub fn plan_frame(
    mode: RenderOutputMode,
    debug_texture: DebugTexture,
    models: &Vec<ModelDesc>,
) -> (plan: Vec<PassPlan>)
    ensures
        plan_shape(plan@, mode, debug_texture, models@),
{
    let mut plan: Vec<PassPlan> = Vec::new();
    if mode.needs_shadow_pass() {
        let draws = build_draws(models, false);
        plan.push(PassPlan::Shadow { draws });
    }
    let draws = build_draws(models, true);
    plan.push(PassPlan::Main { pipeline: mode.pipeline(), binds: mode.bind_group_set(), draws });
    if mode.shows_debug_overlays() {
        plan.push(PassPlan::DebugOverlay { texture: debug_texture });
        plan.push(PassPlan::FrameTimeOverlay);
    }
    plan
}

} // verus!
