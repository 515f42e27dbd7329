//! Core logic of a real-time scene renderer.
//!
//! The crate owns the decisions a frame is built from: the render-mode state
//! machine and its bind-group table, the per-frame pass plan with its ordering
//! rules (the shadow pass is recorded before the pass that samples it), the
//! word-exact layout of the GPU-visible buffers, the rolling frame-time
//! graph, input routing, surface/resize bookkeeping, and the index arithmetic
//! of the depth-picking readback. The windowing, GPU submission and floating
//! point evaluation around these decisions live in the accompanying
//! application crate, which consumes the plans and layouts produced here.

pub mod chunking;
pub mod context;
pub mod control;
pub mod frame_plan;
pub mod frametime;
pub mod gpu_layout;
pub mod input;
pub mod lighting;
pub mod picking;
pub mod render_mode;
