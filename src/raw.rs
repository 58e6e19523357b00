//! The importer's output, held as plain values.
//!
//! A foreign array is a pointer that may be null plus an element count; here
//! the pointer is an `Option<Vec<T>>` whose `None` stands for null. Untyped
//! payloads are the bytes they point to.
use vstd::prelude::*;

use crate::{Bits32, Color4D, Matrix4x4, Vector3D, AABB};

verus! {

/// A foreign `(pointer, count)` array.
#[derive(Debug, Clone)]
pub struct RawArray<T> {
    /// The elements behind the pointer; `None` for a null pointer.
    pub data: Option<Vec<T>>,
    /// The element count the importer reported.
    pub count: u32,
}

impl<T> RawArray<T> {
    /// The array is usable: a null pointer, or one valid for `count` elements.
    pub open spec fn wf(&self) -> bool {
        match self.data {
            None => true,
            Some(v) => self.count <= v.len(),
        }
    }

    /// The elements the array stands for: none behind a null pointer, else the
    /// first `count` ones.
    pub open spec fn elems(&self) -> Seq<T> {
        match self.data {
            None => Seq::empty(),
            Some(v) => v@.subrange(0, self.count as int),
        }
    }

    /// An array of the given elements.
    pub fn from_vec(v: Vec<T>) -> (r: Self)
        requires
            v.len() <= u32::MAX,
        ensures
            r.wf(),
            r.elems() == v@,
    {
        let count = v.len() as u32;
        let r = RawArray { data: Some(v), count };
        proof {
            assert(r.elems() =~= v@);
        }
        r
    }

    /// A null pointer with the given count.
    pub fn null(count: u32) -> (r: Self)
        ensures
            r.wf(),
            r.elems() == Seq::<T>::empty(),
            r.count == count,
    {
        RawArray { data: None, count }
    }
}

/// A foreign face: its vertex indices.
#[derive(Debug, Clone)]
pub struct RawFace {
    pub indices: RawArray<u32>,
}

/// A foreign vertex weight.
#[derive(Debug, Clone, Copy)]
pub struct RawVertexWeight {
    pub vertex_id: u32,
    pub weight: Bits32,
}

/// A foreign bone.
#[derive(Debug, Clone)]
pub struct RawBone {
    pub name: String,
    pub weights: RawArray<RawVertexWeight>,
    pub offset_matrix: Matrix4x4,
}

/// A foreign animation mesh: only its bitangents are carried over.
#[derive(Debug, Clone)]
pub struct RawAnimMesh {
    pub bitangents: RawArray<Vector3D>,
}

/// A foreign mesh. Every per-vertex array holds `num_vertices` elements when
/// its pointer is not null; the channel slots are the fixed arrays of
/// nullable pointers for texture coordinates and vertex colors.
#[derive(Debug, Clone)]
pub struct RawMesh {
    pub name: String,
    pub num_vertices: u32,
    pub vertices: Option<Vec<Vector3D>>,
    pub normals: Option<Vec<Vector3D>>,
    pub tangents: Option<Vec<Vector3D>>,
    pub bitangents: Option<Vec<Vector3D>>,
    pub texture_coords: Vec<Option<Vec<Vector3D>>>,
    pub colors: Vec<Option<Vec<Color4D>>>,
    pub uv_components: Vec<u32>,
    pub primitive_types: u32,
    pub faces: RawArray<RawFace>,
    pub bones: RawArray<RawBone>,
    pub anim_meshes: RawArray<RawAnimMesh>,
    pub material_index: u32,
    pub method: u32,
    pub aabb: AABB,
}

/// A foreign metadata entry: a type tag and the bytes its untyped pointer
/// points to (`None` for a null pointer).
#[derive(Debug, Clone)]
pub struct RawMetadataEntry {
    pub tag: u32,
    pub data: Option<Vec<u8>>,
}

/// A foreign metadata table: parallel arrays of keys and entries.
#[derive(Debug, Clone)]
pub struct RawMetadata {
    pub keys: RawArray<String>,
    pub values: RawArray<RawMetadataEntry>,
}

/// A foreign node. Its children are a tree: each is owned by this node.
#[derive(Debug)]
pub struct RawNode {
    pub name: String,
    pub transformation: Matrix4x4,
    pub meshes: RawArray<u32>,
    pub metadata: Option<RawMetadata>,
    /// The children behind the pointer; `None` for a null pointer.
    pub children: Option<Vec<RawNode>>,
    pub num_children: u32,
}

} // verus!
