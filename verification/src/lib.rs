//! A tick-driven renderer of transformed unit quads, reduced to the decisions
//! it takes: which GPU work is issued for a frame, in which order, and how the
//! presentation target is acquired, released and rebuilt.

pub mod frame;
pub mod geometry;
pub mod pipeline;
pub mod shape;
pub mod state;
pub mod surface;
pub mod target;
pub mod uniforms;

pub use crate::pipeline::RenderPipelineFactory;
pub use crate::state::State;
