//! The ways in which a page has its vertices drawn.

use vstd::prelude::*;

verus! {

/// How a run of vertices is put together into shapes.
#[derive(Clone, Copy, Debug, PartialEq, Eq, Structural)]
pub enum Mode {
    /// One point per vertex.
    Points,
    /// One line per pair of vertices.
    Lines,
    /// One line from each vertex to the next, and one from the last to the
    /// first.
    LineLoop,
    /// One line from each vertex to the next.
    LineStrip,
    /// One triangle per three vertices.
    Triangles,
    /// One triangle per vertex after the second, each sharing an edge with
    /// the one before.
    TriangleStrip,
    /// One triangle per vertex after the second, all sharing the first
    /// vertex.
    TriangleFan,
}

/// The code by which a context knows `mode`.
pub open spec fn mode_code(mode: Mode) -> u32 {
    match mode {
        Mode::Points => 0,
        Mode::Lines => 1,
        Mode::LineLoop => 2,
        Mode::LineStrip => 3,
        Mode::Triangles => 4,
        Mode::TriangleStrip => 5,
        Mode::TriangleFan => 6,
    }
}

impl Mode {
    /// The code by which a context knows this mode.
    pub fn gl_enum(self) -> (code: u32)
        ensures
            code == mode_code(self),
    {
        match self {
            Mode::Points => 0,
            Mode::Lines => 1,
            Mode::LineLoop => 2,
            Mode::LineStrip => 3,
            Mode::Triangles => 4,
            Mode::TriangleStrip => 5,
            Mode::TriangleFan => 6,
        }
    }
}

} // verus!
