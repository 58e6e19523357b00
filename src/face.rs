//! Mesh faces.
use vstd::prelude::*;

use crate::adapter::get_raw_vec;
use crate::raw::RawFace;

verus! {

/// A face: the indices of its vertices.
#[derive(Debug, Clone)]
pub struct Face(pub Vec<u32>);

impl Face {
    /// The face of a foreign one.
    pub fn from(f: &RawFace) -> (r: Face)
        requires
            f.indices.wf(),
        ensures
            r.0@ == f.indices.elems(),
    {
        Face(get_raw_vec(&f.indices))
    }
}

} // verus!
