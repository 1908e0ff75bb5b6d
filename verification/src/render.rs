//! Renderer: the fixed per-frame command sequence.
//!
//! A frame is described as a sequence of plain GPU commands over the
//! resources the application holds (the linked program, the cached
//! uniform location, the one vertex buffer). The unverified host layer
//! executes the commands in order against the live context; everything
//! about their number, order and arguments is stated and proved here.

use vstd::prelude::*;

verus! {

use crate::geometry::{COMPONENTS_PER_VERTEX, VERTEX_COUNT};
use crate::translation::Translation;

/// One GPU command of the per-frame draw sequence. Translation values are
/// numerators over `TRANSLATION_SCALE`.
#[derive(Clone, Copy, PartialEq, Eq, Structural, Debug)]
pub enum GlCommand {
    /// Activate the linked shader program.
    UseProgram,
    /// Upload the 2-vector to the cached "translation" uniform location.
    SetTranslationUniform { x: i64, y: i64 },
    /// Bind the geometry buffer as the active vertex-array buffer.
    BindVertexBuffer,
    /// Describe the attribute layout of slot `slot`: `components`
    /// floating-point components per vertex, tightly packed, offset 0.
    SetVertexLayout { slot: u32, components: i32 },
    /// Enable vertex attribute slot `slot`.
    EnableVertexAttribute { slot: u32 },
    /// Set the clear color to opaque black.
    SetClearColorOpaqueBlack,
    /// Clear the color buffer.
    ClearColorBuffer,
    /// Issue a triangle-list draw call of `count` vertices from `first`.
    DrawTriangles { first: i32, count: i32 },
}

/// The frame sequence for a given translation: always these eight
/// commands, in this order.
pub open spec fn spec_frame_commands(t: Translation) -> Seq<GlCommand> {
    seq![
        GlCommand::UseProgram,
        GlCommand::SetTranslationUniform { x: t.x, y: t.y },
        GlCommand::BindVertexBuffer,
        GlCommand::SetVertexLayout { slot: 0, components: COMPONENTS_PER_VERTEX },
        GlCommand::EnableVertexAttribute { slot: 0 },
        GlCommand::SetClearColorOpaqueBlack,
        GlCommand::ClearColorBuffer,
        GlCommand::DrawTriangles { first: 0, count: VERTEX_COUNT },
    ]
}

/// Emit the frame sequence for the given translation.
pub fn frame_commands(t: &Translation) -> (frame: Vec<GlCommand>)
    ensures
        frame@ == spec_frame_commands(*t),
{
    let mut frame: Vec<GlCommand> = Vec::new();
    frame.push(GlCommand::UseProgram);
    frame.push(GlCommand::SetTranslationUniform { x: t.x, y: t.y });
    frame.push(GlCommand::BindVertexBuffer);
    frame.push(GlCommand::SetVertexLayout { slot: 0, components: COMPONENTS_PER_VERTEX });
    frame.push(GlCommand::EnableVertexAttribute { slot: 0 });
    frame.push(GlCommand::SetClearColorOpaqueBlack);
    frame.push(GlCommand::ClearColorBuffer);
    frame.push(GlCommand::DrawTriangles { first: 0, count: VERTEX_COUNT });
    proof {
        assert(frame@ =~= spec_frame_commands(*t));
    }
    frame
}

/// Every frame issues exactly one draw call — the last command of the
/// eight — and it is a triangle-list draw of the 3 fixed vertices
/// starting at index 0, whatever the translation is.
pub proof fn lemma_single_draw_call(t: Translation)
    ensures
        spec_frame_commands(t).len() == 8,
        forall|i: int|
            0 <= i < spec_frame_commands(t).len() ==> ((#[trigger] spec_frame_commands(t)[i])
                is DrawTriangles <==> i == 7),
        spec_frame_commands(t)[7] == (GlCommand::DrawTriangles { first: 0, count: 3 }),
{
}

} // verus!
