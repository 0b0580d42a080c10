//! Uniform state: the screen-size uniform set once at startup, and the
//! per-frame uniform (time, delta time, pointer position) merged field by
//! field on every update, with the pointer clamped to the screen bounds.

use vstd::prelude::*;

verus! {

/// Pointer position in pixels. Coordinates may come in far outside the
/// screen; an update stores them clamped to `[0, screen_width]` and
/// `[0, screen_height]`.
#[derive(Clone, Copy, Debug, PartialEq, Eq, Structural)]
pub struct MousePos {
    pub x: i64,
    pub y: i64,
}

impl MousePos {
    pub fn zero() -> (p: MousePos)
        ensures
            p == (MousePos { x: 0, y: 0 }),
    {
        MousePos { x: 0, y: 0 }
    }
}

/// Screen size in pixels; written once at startup and never mutated.
#[derive(Clone, Copy, Debug, PartialEq, Eq, Structural)]
pub struct ProgramUniform {
    pub screen_width: u32,
    pub screen_height: u32,
}

/// Per-frame uniform data. Time and delta time are opaque 32-bit values
/// stored exactly as supplied; the pointer is kept clamped to the screen.
#[derive(Clone, Copy, Debug, PartialEq, Eq, Structural)]
pub struct PerFrameUniform {
    pub time_bits: u32,
    pub delta_time_bits: u32,
    pub mouse_pos: MousePos,
}

/// `v` clamped into `[0, hi]`.
pub open spec fn clamp_to(v: int, hi: int) -> int {
    if v < 0 {
        0
    } else if v > hi {
        hi
    } else {
        v
    }
}

/// `p` clamped componentwise to the screen bounds of `u`.
pub open spec fn clamped_pos(p: MousePos, u: ProgramUniform) -> MousePos {
    MousePos {
        x: clamp_to(p.x as int, u.screen_width as int) as i64,
        y: clamp_to(p.y as int, u.screen_height as int) as i64,
    }
}

fn clamp_coord(v: i64, hi: u32) -> (r: i64)
    ensures
        r == clamp_to(v as int, hi as int),
{
    if v < 0 {
        0
    } else if v > hi as i64 {
        hi as i64
    } else {
        v
    }
}

/// Owns the two uniform values: the screen size, and the per-frame data
/// rewritten by `update`.
#[derive(Clone, Copy, Debug, PartialEq, Eq, Structural)]
pub struct UniformManager {
    pub program_uniform_data: ProgramUniform,
    pub per_frame_uniform_data: PerFrameUniform,
}

/// The uniform state right after startup: screen size recorded, per-frame
/// data all zero.
pub open spec fn initial_uniform_state(width: u32, height: u32) -> UniformManager {
    UniformManager {
        program_uniform_data: ProgramUniform { screen_width: width, screen_height: height },
        per_frame_uniform_data: PerFrameUniform {
            time_bits: 0,
            delta_time_bits: 0,
            mouse_pos: MousePos { x: 0, y: 0 },
        },
    }
}

impl UniformManager {
    /// The pointer stays within the screen bounds.
    pub open spec fn wf(self) -> bool {
        &&& 0 <= self.per_frame_uniform_data.mouse_pos.x
            <= self.program_uniform_data.screen_width
        &&& 0 <= self.per_frame_uniform_data.mouse_pos.y
            <= self.program_uniform_data.screen_height
    }

    pub fn new(width: u32, height: u32) -> (m: UniformManager)
        ensures
            m == initial_uniform_state(width, height),
            m.wf(),
    {
        UniformManager {
            program_uniform_data: ProgramUniform { screen_width: width, screen_height: height },
            per_frame_uniform_data: PerFrameUniform {
                time_bits: 0,
                delta_time_bits: 0,
                mouse_pos: MousePos::zero(),
            },
        }
    }

    /// Merge the supplied fields into the per-frame uniform. A field that is
    /// absent keeps its previous value; a supplied pointer is clamped to the
    /// screen bounds. When all three fields are absent nothing is stored and
    /// no buffer write is owed, which the result reports.
    pub fn update(
        &mut self,
        time: Option<u32>,
        delta_time: Option<u32>,
        mouse_pos: Option<MousePos>,
    ) -> (wrote: bool)
        ensures
            wrote == !(time is None && delta_time is None && mouse_pos is None),
            final(self).program_uniform_data == old(self).program_uniform_data,
            !wrote ==> *final(self) == *old(self),
            final(self).per_frame_uniform_data.time_bits == (if time is Some {
                time->0
            } else {
                old(self).per_frame_uniform_data.time_bits
            }),
            final(self).per_frame_uniform_data.delta_time_bits == (if delta_time is Some {
                delta_time->0
            } else {
                old(self).per_frame_uniform_data.delta_time_bits
            }),
            final(self).per_frame_uniform_data.mouse_pos == (match mouse_pos {
                Some(p) => clamped_pos(p, old(self).program_uniform_data),
                None => old(self).per_frame_uniform_data.mouse_pos,
            }),
            old(self).wf() ==> final(self).wf(),
    {
        if time.is_none() && delta_time.is_none() && mouse_pos.is_none() {
            return false;
        }
        let per_frame_uniform_data = PerFrameUniform {
            time_bits: match time {
                Some(t) => t,
                None => self.per_frame_uniform_data.time_bits,
            },
            delta_time_bits: match delta_time {
                Some(d) => d,
                None => self.per_frame_uniform_data.delta_time_bits,
            },
            mouse_pos: match mouse_pos {
                Some(p) => MousePos {
                    x: clamp_coord(p.x, self.program_uniform_data.screen_width),
                    y: clamp_coord(p.y, self.program_uniform_data.screen_height),
                },
                None => self.per_frame_uniform_data.mouse_pos,
            },
        };
        self.per_frame_uniform_data = per_frame_uniform_data;
        true
    }
}

/// One corner of the unit quad. Every component of the fixed mesh is -1, 0
/// or 1, so the corners are held as small integers; the GPU-side buffer is
/// filled from these values.
#[derive(Clone, Copy, Debug, PartialEq, Eq, Structural)]
pub struct Vertex {
    pub pos_x: i8,
    pub pos_y: i8,
    pub pos_z: i8,
    pub color_r: i8,
    pub color_g: i8,
    pub color_b: i8,
    pub tex_u: i8,
    pub tex_v: i8,
}

/// The four corners of the unit quad, in the fixed order the index buffer
/// refers to.
pub open spec fn quad_vertices() -> Seq<Vertex> {
    seq![
        Vertex { pos_x: -1i8, pos_y: -1i8, pos_z: 0, color_r: 1, color_g: 0, color_b: 0, tex_u: 0, tex_v: 1 },
        Vertex { pos_x: -1i8, pos_y: 1, pos_z: 0, color_r: 0, color_g: 1, color_b: 0, tex_u: 0, tex_v: 0 },
        Vertex { pos_x: 1, pos_y: 1, pos_z: 0, color_r: 0, color_g: 0, color_b: 1, tex_u: 1, tex_v: 0 },
        Vertex { pos_x: 1, pos_y: -1i8, pos_z: 0, color_r: 1, color_g: 1, color_b: 1, tex_u: 1, tex_v: 1 },
    ]
}

/// The six indices describing the two triangles that cover the quad.
pub open spec fn quad_indices() -> Seq<u16> {
    seq![0u16, 1u16, 2u16, 0u16, 2u16, 3u16]
}

/// Owns the immutable quad mesh and the uniform state.
pub struct BufferManager {
    pub vertices: Vec<Vertex>,
    pub indices: Vec<u16>,
    pub index_length: u32,
    pub uniform_manager: UniformManager,
}

impl BufferManager {
    /// Build the fixed quad mesh and the initial uniform state for a screen
    /// of the given size. Every index points at one of the four vertices.
    pub fn new(width: u32, height: u32) -> (b: BufferManager)
        ensures
            b.vertices@ == quad_vertices(),
            b.indices@ == quad_indices(),
            b.index_length == b.indices@.len(),
            forall|i: int| 0 <= i < b.indices@.len() ==> b.indices@[i] < b.vertices@.len(),
            b.uniform_manager == initial_uniform_state(width, height),
    {
        let vertices: Vec<Vertex> = vec![
            Vertex { pos_x: -1, pos_y: -1, pos_z: 0, color_r: 1, color_g: 0, color_b: 0, tex_u: 0, tex_v: 1 },
            Vertex { pos_x: -1, pos_y: 1, pos_z: 0, color_r: 0, color_g: 1, color_b: 0, tex_u: 0, tex_v: 0 },
            Vertex { pos_x: 1, pos_y: 1, pos_z: 0, color_r: 0, color_g: 0, color_b: 1, tex_u: 1, tex_v: 0 },
            Vertex { pos_x: 1, pos_y: -1, pos_z: 0, color_r: 1, color_g: 1, color_b: 1, tex_u: 1, tex_v: 1 },
        ];
        let indices: Vec<u16> = vec![0u16, 1u16, 2u16, 0u16, 2u16, 3u16];
        let index_length: u32 = indices.len() as u32;
        proof {
            assert(vertices@ =~= quad_vertices());
            assert(indices@ =~= quad_indices());
        }
        BufferManager {
            vertices,
            indices,
            index_length,
            uniform_manager: UniformManager::new(width, height),
        }
    }
}

} // verus!
