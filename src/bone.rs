//! Bones and the vertex weights they carry.
use vstd::prelude::*;

use crate::adapter::get_vec;
use crate::raw::{RawBone, RawVertexWeight};
use crate::{Bits32, Matrix4x4};

verus! {

/// How strongly a bone influences one vertex.
#[derive(Debug, Clone, Copy, PartialEq, Eq)]
pub struct VertexWeight {
    pub weight: Bits32,
    pub vertex_id: u32,
}

impl VertexWeight {
    /// A weight for the given vertex.
    pub fn new(vertex_id: u32, weight: Bits32) -> (r: VertexWeight)
        ensures
            r.vertex_id == vertex_id,
            r.weight == weight,
    {
        VertexWeight { weight, vertex_id }
    }

    /// The weight of a foreign one.
    pub fn convert(w: &RawVertexWeight) -> (r: VertexWeight)
        ensures
            r.vertex_id == w.vertex_id,
            r.weight == w.weight,
    {
        VertexWeight::new(w.vertex_id, w.weight)
    }
}

/// A bone.
#[derive(Debug)]
pub struct Bone {
    pub weights: Vec<VertexWeight>,
    pub name: String,
    pub offset_matrix: Matrix4x4,
}

/// `b` holds the contents of the foreign bone `raw`.
pub open spec fn bone_converted(raw: RawBone, b: Bone) -> bool {
    &&& b.name@ == raw.name@
    &&& b.offset_matrix == raw.offset_matrix
    &&& b.weights@.len() == raw.weights.elems().len()
    &&& forall|i: int|
        0 <= i < b.weights@.len() ==> (#[trigger] b.weights@[i]).vertex_id
            == raw.weights.elems()[i].vertex_id && b.weights@[i].weight
            == raw.weights.elems()[i].weight
}

impl Bone {
    /// The bone of a foreign one.
    pub fn new(raw: &RawBone) -> (r: Bone)
        requires
            raw.weights.wf(),
        ensures
            bone_converted(*raw, r),
    {
        let weights = get_vec(&raw.weights, |w: &RawVertexWeight| -> (r: VertexWeight) ensures r.vertex_id == w.vertex_id && r.weight == w.weight { VertexWeight::convert(w) });
        Bone { weights, name: raw.name.clone(), offset_matrix: raw.offset_matrix }
    }
}

} // verus!
