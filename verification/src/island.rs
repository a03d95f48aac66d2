//! Staged procedural island generation: the discrete stages of the pipeline.

pub mod types;
pub mod surfaces;
pub mod recipe;
pub mod grid;
pub mod sea;
pub mod mask;
pub mod distance;
pub mod bands;
pub mod transition;
pub mod patches;
pub mod components;
pub mod patch_graph;
pub mod border_vote;
pub mod stats;
pub mod saves;
pub mod art;
pub mod controls;
