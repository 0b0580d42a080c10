//! Core state of a small quad-rendering demo: per-frame uniform data with
//! pointer clamping, the fixed quad mesh, decoded textures with their
//! binding plan, and the single indexed draw call.

pub mod buffer_manager;
pub mod renderer;
pub mod texture_manager;
