//! Meshes.
use vstd::prelude::*;

use crate::adapter::{copy_prefix, get_raw_vec, get_vec, get_vec_of_vecs};
use crate::bone::{bone_converted, Bone};
use crate::face::Face;
use crate::raw::{RawAnimMesh, RawBone, RawFace, RawMesh};
use crate::{Color4D, Vector3D, AABB};

verus! {

/// The kinds of primitives a mesh holds, as bits of a mask.
#[derive(Debug, Clone, Copy, PartialEq, Eq, Structural)]
pub enum PrimitiveType {
    Point,
    Line,
    Triangle,
    Polygon,
    NGONEncodingFlag,
}

impl PrimitiveType {
    /// The bit of this kind.
    pub open spec fn spec_to_u32(self) -> u32 {
        match self {
            PrimitiveType::Point => 0x1,
            PrimitiveType::Line => 0x2,
            PrimitiveType::Triangle => 0x4,
            PrimitiveType::Polygon => 0x8,
            PrimitiveType::NGONEncodingFlag => 0x10,
        }
    }

    /// The bit of this kind.
    #[verifier::when_used_as_spec(spec_to_u32)]
    pub fn to_u32(self) -> (r: u32)
        ensures
            r == self.spec_to_u32(),
    {
        match self {
            PrimitiveType::Point => 0x1,
            PrimitiveType::Line => 0x2,
            PrimitiveType::Triangle => 0x4,
            PrimitiveType::Polygon => 0x8,
            PrimitiveType::NGONEncodingFlag => 0x10,
        }
    }

    /// The bits this kind shares with `mask`.
    pub fn bitand(self, mask: u32) -> (r: u32)
        ensures
            r == self.to_u32() & mask,
    {
        self.to_u32() & mask
    }

    /// The mask of this kind and `other`.
    pub fn bitor(self, other: PrimitiveType) -> (r: u32)
        ensures
            r == self.to_u32() | other.to_u32(),
    {
        self.to_u32() | other.to_u32()
    }
}

/// An animation mesh: its bitangents.
#[derive(Debug, Clone)]
pub struct AnimMesh(pub Vec<Vector3D>);

impl AnimMesh {
    /// The animation mesh of a foreign one.
    pub fn from(m: &RawAnimMesh) -> (r: AnimMesh)
        requires
            m.bitangents.wf(),
        ensures
            r.0@ == m.bitangents.elems(),
    {
        AnimMesh(get_raw_vec(&m.bitangents))
    }
}

/// A mesh.
#[derive(Debug)]
pub struct Mesh {
    pub normals: Vec<Vector3D>,
    pub name: String,
    pub vertices: Vec<Vector3D>,
    pub texture_coords: Vec<Option<Vec<Vector3D>>>,
    pub tangents: Vec<Vector3D>,
    pub bitangents: Vec<Vector3D>,
    pub uv_components: Vec<u32>,
    pub primitive_types: u32,
    pub bones: Vec<Bone>,
    pub material_index: u32,
    pub method: u32,
    pub anim_meshes: Vec<AnimMesh>,
    pub faces: Vec<Face>,
    pub colors: Vec<Option<Vec<Color4D>>>,
    pub aabb: AABB,
}

/// The first `n` elements behind a per-vertex pointer; none if it is null.
pub open spec fn per_vertex<T>(data: Option<Vec<T>>, n: u32) -> Seq<T> {
    match data {
        None => Seq::empty(),
        Some(v) => v@.subrange(0, n as int),
    }
}

/// A per-vertex pointer is null or holds `n` elements.
pub open spec fn holds<T>(data: Option<Vec<T>>, n: u32) -> bool {
    data matches Some(v) ==> n <= v.len()
}

/// The channels of a fixed array of nullable per-vertex pointers.
pub open spec fn channels_converted<T>(
    slots: Seq<Option<Vec<T>>>,
    n: u32,
    r: Seq<Option<Vec<T>>>,
) -> bool {
    &&& r.len() == slots.len()
    &&& forall|k: int| 0 <= k < r.len() ==> (#[trigger] r[k] is Some <==> slots[k] is Some)
    &&& forall|k: int|
        0 <= k < r.len() ==> (#[trigger] r[k] matches Some(c) ==> c@ == slots[k]->Some_0@.subrange(
            0,
            n as int,
        ))
}

/// The foreign mesh is usable: every array in it holds what its count says.
pub open spec fn raw_mesh_wf(m: RawMesh) -> bool {
    &&& holds(m.vertices, m.num_vertices)
    &&& holds(m.normals, m.num_vertices)
    &&& holds(m.tangents, m.num_vertices)
    &&& holds(m.bitangents, m.num_vertices)
    &&& forall|k: int|
        0 <= k < m.texture_coords@.len() ==> holds(#[trigger] m.texture_coords@[k], m.num_vertices)
    &&& forall|k: int| 0 <= k < m.colors@.len() ==> holds(#[trigger] m.colors@[k], m.num_vertices)
    &&& m.faces.wf()
    &&& forall|i: int| 0 <= i < m.faces.elems().len() ==> (#[trigger] m.faces.elems()[i]).indices.wf()
    &&& m.bones.wf()
    &&& forall|i: int| 0 <= i < m.bones.elems().len() ==> (#[trigger] m.bones.elems()[i]).weights.wf()
    &&& m.anim_meshes.wf()
    &&& forall|i: int|
        0 <= i < m.anim_meshes.elems().len() ==> (#[trigger] m.anim_meshes.elems()[i]).bitangents.wf()
}

/// `r` holds the contents of the foreign mesh `m`.
pub open spec fn mesh_converted(m: RawMesh, r: Mesh) -> bool {
    &&& r.name@ == m.name@
    &&& r.vertices@ == per_vertex(m.vertices, m.num_vertices)
    &&& r.normals@ == per_vertex(m.normals, m.num_vertices)
    &&& r.tangents@ == per_vertex(m.tangents, m.num_vertices)
    &&& r.bitangents@ == per_vertex(m.bitangents, m.num_vertices)
    &&& channels_converted(m.texture_coords@, m.num_vertices, r.texture_coords@)
    &&& channels_converted(m.colors@, m.num_vertices, r.colors@)
    &&& r.uv_components@ == m.uv_components@
    &&& r.primitive_types == m.primitive_types
    &&& r.material_index == m.material_index
    &&& r.method == m.method
    &&& r.aabb == m.aabb
    &&& r.faces@.len() == m.faces.elems().len()
    &&& forall|i: int| 0 <= i < r.faces@.len() ==> (#[trigger] r.faces@[i]).0@ == m.faces.elems()[i].indices.elems()
    &&& r.bones@.len() == m.bones.elems().len()
    &&& forall|i: int| 0 <= i < r.bones@.len() ==> bone_converted(m.bones.elems()[i], #[trigger] r.bones@[i])
    &&& r.anim_meshes@.len() == m.anim_meshes.elems().len()
    &&& forall|i: int|
        0 <= i < r.anim_meshes@.len() ==> (#[trigger] r.anim_meshes@[i]).0@ == m.anim_meshes.elems()[i].bitangents.elems()
}

fn per_vertex_vec<T: Copy>(data: &Option<Vec<T>>, n: u32) -> (r: Vec<T>)
    requires
        holds(*data, n),
    ensures
        r@ == per_vertex(*data, n),
{
    match data {
        None => Vec::new(),
        Some(v) => copy_prefix(v, n as usize),
    }
}

impl Mesh {
    /// The mesh of a foreign one, every array copied out.
    pub fn from(m: &RawMesh) -> (r: Mesh)
        requires
            raw_mesh_wf(*m),
        ensures
            mesh_converted(*m, r),
    {
        let n = m.num_vertices;
        let faces = get_vec(&m.faces, |f: &RawFace| -> (r: Face) requires f.indices.wf() ensures r.0@ == f.indices.elems() { Face::from(f) });
        let bones = get_vec(&m.bones, |b: &RawBone| -> (r: Bone) requires b.weights.wf() ensures bone_converted(*b, r) { Bone::new(b) });
        let anim_meshes = get_vec(&m.anim_meshes, |a: &RawAnimMesh| -> (r: AnimMesh) requires a.bitangents.wf() ensures r.0@ == a.bitangents.elems() { AnimMesh::from(a) });
        let uv_components = copy_prefix(&m.uv_components, m.uv_components.len());
        proof {
            assert(uv_components@ =~= m.uv_components@);
        }
        Mesh {
            normals: per_vertex_vec(&m.normals, n),
            name: m.name.clone(),
            vertices: per_vertex_vec(&m.vertices, n),
            texture_coords: get_vec_of_vecs(&m.texture_coords, n),
            tangents: per_vertex_vec(&m.tangents, n),
            bitangents: per_vertex_vec(&m.bitangents, n),
            uv_components,
            primitive_types: m.primitive_types,
            bones,
            material_index: m.material_index,
            method: m.method,
            anim_meshes,
            faces,
            colors: get_vec_of_vecs(&m.colors, n),
            aabb: m.aabb,
        }
    }
}

} // verus!
