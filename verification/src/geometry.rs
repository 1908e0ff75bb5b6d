//! The fixed triangle geometry that is uploaded to the GPU exactly once.
//!
//! Coordinates are exact tenths: a stored value `n` stands for the
//! coordinate `n / COORDINATE_SCALE`. The unverified host layer divides by
//! the scale when it builds the floating-point upload array.

use vstd::prelude::*;

verus! {

/// Denominator of the stored vertex coordinates.
pub const COORDINATE_SCALE: i32 = 10;

/// Components per vertex in the uploaded buffer (x, y, z).
pub const COMPONENTS_PER_VERTEX: i32 = 3;

/// Vertices of the single triangle; also the vertex count of every draw
/// call.
pub const VERTEX_COUNT: i32 = 3;

/// The fixed 9-element vertex sequence, as coordinate numerators over
/// `COORDINATE_SCALE`: the triangle (-0.7, -0.7, 0), (0.7, -0.7, 0),
/// (0, 0.7, 0).
pub open spec fn spec_vertex_tenths() -> Seq<i32> {
    seq![-7i32, -7i32, 0i32, 7i32, -7i32, 0i32, 0i32, 7i32, 0i32]
}

/// Produce the fixed vertex sequence for the one-time buffer upload,
/// exactly as specified and unmodified.
pub fn vertex_data() -> (v: Vec<i32>)
    ensures
        v@ == spec_vertex_tenths(),
{
    let mut v: Vec<i32> = Vec::new();
    v.push(-7);
    v.push(-7);
    v.push(0);
    v.push(7);
    v.push(-7);
    v.push(0);
    v.push(0);
    v.push(7);
    v.push(0);
    proof {
        assert(v@ =~= spec_vertex_tenths());
    }
    v
}

/// The vertex sequence length is exactly the draw call's vertex count
/// times the components per vertex: the constant 3 of every draw call is
/// tied to the fixed geometry.
pub proof fn lemma_vertex_count_matches_geometry()
    ensures
        spec_vertex_tenths().len() == VERTEX_COUNT * COMPONENTS_PER_VERTEX,
{
}

} // verus!
