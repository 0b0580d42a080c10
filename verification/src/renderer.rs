//! The draw contract: each frame issues exactly one indexed draw of the
//! stored quad, over the whole index buffer, for a single instance.

use vstd::prelude::*;
use crate::buffer_manager::BufferManager;

verus! {

/// The one indexed draw recorded into a frame's render pass: the index
/// range, the base vertex, and the instance range.
#[derive(Clone, Copy, Debug, PartialEq, Eq, Structural)]
pub struct DrawCall {
    pub first_index: u32,
    pub index_count: u32,
    pub base_vertex: i32,
    pub first_instance: u32,
    pub instance_count: u32,
}

/// Issues the per-frame draw.
pub struct Renderer;

impl Renderer {
    pub fn new() -> (r: Renderer) {
        Renderer
    }

    /// The single draw of a frame: the whole stored index buffer, from its
    /// start, one instance, no vertex offset. Nothing else is ever drawn.
    pub fn draw_call(&self, buffers: &BufferManager) -> (c: DrawCall)
        ensures
            c == (DrawCall {
                first_index: 0,
                index_count: buffers.index_length,
                base_vertex: 0,
                first_instance: 0,
                instance_count: 1,
            }),
    {
        DrawCall {
            first_index: 0,
            index_count: buffers.index_length,
            base_vertex: 0,
            first_instance: 0,
            instance_count: 1,
        }
    }
}

} // verus!
