//! Animations: node, mesh and morph channels with their keys.
use vstd::prelude::*;

use crate::adapter::{get_raw_vec, get_vec};
use crate::mesh::{holds, per_vertex};
use crate::raw::RawArray;
use crate::{Bits32, Bits64, Vector3D};

verus! {

/// A rotation.
#[derive(Debug, Clone, Copy, PartialEq, Eq)]
pub struct Quaternion {
    pub w: Bits32,
    pub x: Bits32,
    pub y: Bits32,
    pub z: Bits32,
}

/// A position or scaling at a point in time.
#[derive(Debug, Clone, Copy, PartialEq, Eq)]
pub struct VectorKey {
    pub time: Bits64,
    pub value: Vector3D,
}

/// A rotation at a point in time.
#[derive(Debug, Clone, Copy, PartialEq, Eq)]
pub struct QuatKey {
    pub time: Bits64,
    pub value: Quaternion,
}

/// An animation mesh to show at a point in time.
#[derive(Debug, Clone, Copy, PartialEq, Eq)]
pub struct MeshKey {
    pub time: Bits64,
    pub value: u32,
}

/// A foreign morph key: `count` values and weights.
#[derive(Debug, Clone)]
pub struct RawMeshMorphKey {
    pub time: Bits64,
    pub values: Option<Vec<u32>>,
    pub weights: Option<Vec<Bits64>>,
    pub count: u32,
}

/// A morph key: animation meshes and their weights at a point in time.
#[derive(Debug, Clone)]
pub struct MeshMorphKey {
    pub time: Bits64,
    pub values: Vec<u32>,
    pub weights: Vec<Bits64>,
}

/// `r` holds the contents of the foreign morph key `k`.
pub open spec fn morph_key_converted(k: RawMeshMorphKey, r: MeshMorphKey) -> bool {
    &&& r.time == k.time
    &&& r.values@ == per_vertex(k.values, k.count)
    &&& r.weights@ == per_vertex(k.weights, k.count)
}

impl MeshMorphKey {
    /// The morph key of a foreign one.
    pub fn from(k: &RawMeshMorphKey) -> (r: MeshMorphKey)
        requires
            holds(k.values, k.count),
            holds(k.weights, k.count),
        ensures
            morph_key_converted(*k, r),
    {
        let values = get_raw_vec(&RawArray { data: k.values.clone(), count: k.count });
        let weights = get_raw_vec(&RawArray { data: k.weights.clone(), count: k.count });
        MeshMorphKey { time: k.time, values, weights }
    }
}

/// A foreign morph channel.
#[derive(Debug, Clone)]
pub struct RawMeshMorphAnim {
    pub name: String,
    pub keys: RawArray<RawMeshMorphKey>,
}

/// A morph channel.
#[derive(Debug, Clone)]
pub struct MeshMorphAnim {
    pub keys: Vec<MeshMorphKey>,
    pub name: String,
}

/// The foreign morph key is usable.
pub open spec fn morph_key_wf(k: RawMeshMorphKey) -> bool {
    holds(k.values, k.count) && holds(k.weights, k.count)
}

/// `r` holds the contents of the foreign morph channel `m`.
pub open spec fn morph_anim_converted(m: RawMeshMorphAnim, r: MeshMorphAnim) -> bool {
    &&& r.name@ == m.name@
    &&& r.keys@.len() == m.keys.elems().len()
    &&& forall|i: int|
        0 <= i < r.keys@.len() ==> morph_key_converted(m.keys.elems()[i], #[trigger] r.keys@[i])
}

/// The foreign morph channel is usable.
pub open spec fn morph_anim_wf(m: RawMeshMorphAnim) -> bool {
    m.keys.wf() && forall|j: int| 0 <= j < m.keys.elems().len() ==> morph_key_wf(#[trigger] m.keys.elems()[j])
}

impl MeshMorphAnim {
    /// The morph channel of a foreign one.
    pub fn from(m: &RawMeshMorphAnim) -> (r: MeshMorphAnim)
        requires
            morph_anim_wf(*m),
        ensures
            morph_anim_converted(*m, r),
    {
        let keys = get_vec(&m.keys, |k: &RawMeshMorphKey| -> (r: MeshMorphKey) requires morph_key_wf(*k) ensures morph_key_converted(*k, r) { MeshMorphKey::from(k) });
        MeshMorphAnim { keys, name: m.name.clone() }
    }
}

/// A foreign node channel.
#[derive(Debug, Clone)]
pub struct RawNodeAnim {
    pub name: String,
    pub position_keys: RawArray<VectorKey>,
    pub rotation_keys: RawArray<QuatKey>,
    pub scaling_keys: RawArray<VectorKey>,
    pub post_state: u32,
    pub pre_state: u32,
}

/// The keys of one node's position, rotation and scaling.
#[derive(Debug, Clone)]
pub struct NodeAnim {
    pub name: String,
    pub position_keys: Vec<VectorKey>,
    pub rotation_keys: Vec<QuatKey>,
    pub scaling_keys: Vec<VectorKey>,
    pub post_state: u32,
    pub pre_state: u32,
}

/// The foreign node channel is usable.
pub open spec fn node_anim_wf(n: RawNodeAnim) -> bool {
    n.position_keys.wf() && n.rotation_keys.wf() && n.scaling_keys.wf()
}

/// `r` holds the contents of the foreign node channel `n`.
pub open spec fn node_anim_converted(n: RawNodeAnim, r: NodeAnim) -> bool {
    &&& r.name@ == n.name@
    &&& r.position_keys@ == n.position_keys.elems()
    &&& r.rotation_keys@ == n.rotation_keys.elems()
    &&& r.scaling_keys@ == n.scaling_keys.elems()
    &&& r.post_state == n.post_state
    &&& r.pre_state == n.pre_state
}

impl NodeAnim {
    /// The node channel of a foreign one.
    pub fn from(n: &RawNodeAnim) -> (r: NodeAnim)
        requires
            node_anim_wf(*n),
        ensures
            node_anim_converted(*n, r),
    {
        NodeAnim {
            name: n.name.clone(),
            position_keys: get_raw_vec(&n.position_keys),
            rotation_keys: get_raw_vec(&n.rotation_keys),
            scaling_keys: get_raw_vec(&n.scaling_keys),
            post_state: n.post_state,
            pre_state: n.pre_state,
        }
    }
}

/// A foreign mesh channel.
#[derive(Debug, Clone)]
pub struct RawMeshAnim {
    pub name: String,
    pub keys: RawArray<MeshKey>,
}

/// The keys of one mesh's animation meshes.
#[derive(Debug, Clone)]
pub struct MeshAnim {
    pub name: String,
    pub keys: Vec<MeshKey>,
}

impl MeshAnim {
    /// The mesh channel of a foreign one.
    pub fn from(m: &RawMeshAnim) -> (r: MeshAnim)
        requires
            m.keys.wf(),
        ensures
            r.name@ == m.name@,
            r.keys@ == m.keys.elems(),
    {
        MeshAnim { name: m.name.clone(), keys: get_raw_vec(&m.keys) }
    }
}

/// A foreign animation.
#[derive(Debug, Clone)]
pub struct RawAnimation {
    pub name: String,
    pub channels: RawArray<RawNodeAnim>,
    pub duration: Bits64,
    pub morph_mesh_channels: RawArray<RawMeshMorphAnim>,
    pub mesh_channels: RawArray<RawMeshAnim>,
    pub ticks_per_second: Bits64,
}

/// An animation.
#[derive(Debug, Clone)]
pub struct Animation {
    pub name: String,
    pub channels: Vec<NodeAnim>,
    pub duration: Bits64,
    pub morph_mesh_channels: Vec<MeshMorphAnim>,
    pub mesh_channels: Vec<MeshAnim>,
    pub ticks_per_second: Bits64,
}

/// The foreign animation is usable: every array in it holds its count.
pub open spec fn animation_wf(a: RawAnimation) -> bool {
    &&& a.channels.wf()
    &&& forall|i: int| 0 <= i < a.channels.elems().len() ==> node_anim_wf(#[trigger] a.channels.elems()[i])
    &&& a.morph_mesh_channels.wf()
    &&& forall|i: int|
        0 <= i < a.morph_mesh_channels.elems().len() ==> morph_anim_wf(#[trigger] a.morph_mesh_channels.elems()[i])
    &&& a.mesh_channels.wf()
    &&& forall|i: int| 0 <= i < a.mesh_channels.elems().len() ==> (#[trigger] a.mesh_channels.elems()[i]).keys.wf()
}

/// `r` holds the contents of the foreign animation `a`.
pub open spec fn animation_converted(a: RawAnimation, r: Animation) -> bool {
    &&& r.name@ == a.name@
    &&& r.duration == a.duration
    &&& r.ticks_per_second == a.ticks_per_second
    &&& r.channels@.len() == a.channels.elems().len()
    &&& forall|i: int|
        0 <= i < r.channels@.len() ==> node_anim_converted(a.channels.elems()[i], #[trigger] r.channels@[i])
    &&& r.morph_mesh_channels@.len() == a.morph_mesh_channels.elems().len()
    &&& forall|i: int|
        0 <= i < r.morph_mesh_channels@.len() ==> morph_anim_converted(
            a.morph_mesh_channels.elems()[i],
            #[trigger] r.morph_mesh_channels@[i],
        )
    &&& r.mesh_channels@.len() == a.mesh_channels.elems().len()
    &&& forall|i: int|
        0 <= i < r.mesh_channels@.len() ==> (#[trigger] r.mesh_channels@[i]).keys@ == a.mesh_channels.elems()[i].keys.elems()
            && r.mesh_channels@[i].name@ == a.mesh_channels.elems()[i].name@
}

impl Animation {
    /// The animation of a foreign one.
    pub fn from(a: &RawAnimation) -> (r: Animation)
        requires
            animation_wf(*a),
        ensures
            animation_converted(*a, r),
    {
        let channels = get_vec(&a.channels, |n: &RawNodeAnim| -> (r: NodeAnim) requires node_anim_wf(*n) ensures node_anim_converted(*n, r) { NodeAnim::from(n) });
        let morph_mesh_channels = get_vec(&a.morph_mesh_channels, |m: &RawMeshMorphAnim| -> (r: MeshMorphAnim) requires morph_anim_wf(*m) ensures morph_anim_converted(*m, r) { MeshMorphAnim::from(m) });
        let mesh_channels = get_vec(&a.mesh_channels, |m: &RawMeshAnim| -> (r: MeshAnim) requires m.keys.wf() ensures r.keys@ == m.keys.elems() && r.name@ == m.name@ { MeshAnim::from(m) });
        Animation {
            name: a.name.clone(),
            channels,
            duration: a.duration,
            morph_mesh_channels,
            mesh_channels,
            ticks_per_second: a.ticks_per_second,
        }
    }
}

} // verus!
