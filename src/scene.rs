//! The scene: everything an import produced, owned.
use vstd::prelude::*;

use crate::adapter::{get_vec, raw_at, raw_len};
use crate::animation::{animation_converted, animation_wf, Animation, RawAnimation};
use crate::camera::{camera_converted, Camera, RawCamera};
use crate::light::{light_converted, Light, RawLight};
use crate::material::{generate_materials, material_built, Material, RawMaterial};
use crate::mesh::{mesh_converted, raw_mesh_wf, Mesh};
use crate::metadata::{raw_table_wf, table_decoded, MetaData};
use crate::node::{mirrors, raw_wf, tree_wf, NodeTree};
use crate::raw::{RawArray, RawMesh, RawMetadata, RawNode};
use crate::texture::{raw_texture_wf, texture_converted, RawTexture, Texture};
use crate::{RussimpError, Russult};

verus! {

/// A post-processing step the importer can run.
#[derive(Debug, Clone, Copy, PartialEq, Eq, Structural)]
pub enum PostProcess {
    CalculateTangentSpace,
    JoinIdenticalVertices,
    MakeLeftHanded,
    Triangulate,
    RemoveComponent,
    GenerateNormals,
    GenerateSmoothNormals,
    SplitLargeMeshes,
    PreTransformVertices,
    LimitBoneWeights,
    ValidateDataStructure,
    ImproveCacheLocality,
    RemoveRedundantMaterials,
    FixInfacingNormals,
    SortByPrimitiveType,
    FindDegenerates,
    FixOrRemoveInvalidData,
    GenerateUVCoords,
    TransformUVCoords,
    FindInstances,
    OptimizeMeshes,
    OptimizeGraph,
    FlipUVs,
    FlipWindingOrder,
    SplitByBoneCount,
    Debone,
    GlobalScale,
    EmbedTextures,
    ForceGenerateNormals,
    DropNormals,
    GenerateBoundingBoxes,
}

/// The steps requested for an import.
pub type PostProcessSteps = Vec<PostProcess>;

impl PostProcess {
    /// The importer's flag bit of this step.
    pub open spec fn spec_bits(self) -> u32 {
        match self {
            PostProcess::CalculateTangentSpace => 0x1,
            PostProcess::JoinIdenticalVertices => 0x2,
            PostProcess::MakeLeftHanded => 0x4,
            PostProcess::Triangulate => 0x8,
            PostProcess::RemoveComponent => 0x10,
            PostProcess::GenerateNormals => 0x20,
            PostProcess::GenerateSmoothNormals => 0x40,
            PostProcess::SplitLargeMeshes => 0x80,
            PostProcess::PreTransformVertices => 0x100,
            PostProcess::LimitBoneWeights => 0x200,
            PostProcess::ValidateDataStructure => 0x400,
            PostProcess::ImproveCacheLocality => 0x800,
            PostProcess::RemoveRedundantMaterials => 0x1000,
            PostProcess::FixInfacingNormals => 0x2000,
            PostProcess::SortByPrimitiveType => 0x8000,
            PostProcess::FindDegenerates => 0x1_0000,
            PostProcess::FixOrRemoveInvalidData => 0x2_0000,
            PostProcess::GenerateUVCoords => 0x4_0000,
            PostProcess::TransformUVCoords => 0x8_0000,
            PostProcess::FindInstances => 0x10_0000,
            PostProcess::OptimizeMeshes => 0x20_0000,
            PostProcess::OptimizeGraph => 0x40_0000,
            PostProcess::FlipUVs => 0x80_0000,
            PostProcess::FlipWindingOrder => 0x100_0000,
            PostProcess::SplitByBoneCount => 0x200_0000,
            PostProcess::Debone => 0x400_0000,
            PostProcess::GlobalScale => 0x800_0000,
            PostProcess::EmbedTextures => 0x1000_0000,
            PostProcess::ForceGenerateNormals => 0x2000_0000,
            PostProcess::DropNormals => 0x4000_0000,
            PostProcess::GenerateBoundingBoxes => 0x8000_0000,
        }
    }

    /// The importer's flag bit of this step.
    #[verifier::when_used_as_spec(spec_bits)]
    pub fn bits(self) -> (r: u32)
        ensures
            r == self.spec_bits(),
    {
        match self {
            PostProcess::CalculateTangentSpace => 0x1,
            PostProcess::JoinIdenticalVertices => 0x2,
            PostProcess::MakeLeftHanded => 0x4,
            PostProcess::Triangulate => 0x8,
            PostProcess::RemoveComponent => 0x10,
            PostProcess::GenerateNormals => 0x20,
            PostProcess::GenerateSmoothNormals => 0x40,
            PostProcess::SplitLargeMeshes => 0x80,
            PostProcess::PreTransformVertices => 0x100,
            PostProcess::LimitBoneWeights => 0x200,
            PostProcess::ValidateDataStructure => 0x400,
            PostProcess::ImproveCacheLocality => 0x800,
            PostProcess::RemoveRedundantMaterials => 0x1000,
            PostProcess::FixInfacingNormals => 0x2000,
            PostProcess::SortByPrimitiveType => 0x8000,
            PostProcess::FindDegenerates => 0x1_0000,
            PostProcess::FixOrRemoveInvalidData => 0x2_0000,
            PostProcess::GenerateUVCoords => 0x4_0000,
            PostProcess::TransformUVCoords => 0x8_0000,
            PostProcess::FindInstances => 0x10_0000,
            PostProcess::OptimizeMeshes => 0x20_0000,
            PostProcess::OptimizeGraph => 0x40_0000,
            PostProcess::FlipUVs => 0x80_0000,
            PostProcess::FlipWindingOrder => 0x100_0000,
            PostProcess::SplitByBoneCount => 0x200_0000,
            PostProcess::Debone => 0x400_0000,
            PostProcess::GlobalScale => 0x800_0000,
            PostProcess::EmbedTextures => 0x1000_0000,
            PostProcess::ForceGenerateNormals => 0x2000_0000,
            PostProcess::DropNormals => 0x4000_0000,
            PostProcess::GenerateBoundingBoxes => 0x8000_0000,
        }
    }
}

/// The flag mask of a list of steps: the bitwise or of their bits.
pub open spec fn flags_of(steps: Seq<PostProcess>) -> u32
    decreases steps.len(),
{
    if steps.len() == 0 {
        0
    } else {
        flags_of(steps.drop_last()) | steps.last().bits()
    }
}

/// The flag mask passed to the importer for the given steps.
pub fn import_flags(steps: &PostProcessSteps) -> (r: u32)
    ensures
        r == flags_of(steps@),
{
    let mut acc: u32 = 0;
    let mut i: usize = 0;
    while i < steps.len()
        invariant
            i <= steps@.len(),
            acc == flags_of(steps@.subrange(0, i as int)),
        decreases steps@.len() - i,
    {
        proof {
            assert(steps@.subrange(0, i + 1).drop_last() =~= steps@.subrange(0, i as int));
        }
        acc = acc | steps[i].bits();
        i += 1;
    }
    proof {
        assert(steps@.subrange(0, i as int) =~= steps@);
    }
    acc
}

/// Every requested step's bit is set in the mask, and the mask holds no
/// other bits.
pub proof fn lemma_flags_hold_steps(steps: Seq<PostProcess>)
    ensures
        forall|i: int| 0 <= i < steps.len() ==> flags_of(steps) & (#[trigger] steps[i]).bits() == steps[i].bits(),
    decreases steps.len(),
{
    if steps.len() > 0 {
        let rest = steps.drop_last();
        lemma_flags_hold_steps(rest);
        let a = flags_of(rest);
        let x = steps.last().bits();
        assert forall|i: int| 0 <= i < steps.len() implies flags_of(steps) & (#[trigger] steps[i]).bits() == steps[i].bits() by {
            let y = steps[i].bits();
            if i < steps.len() - 1 {
                assert(rest[i] == steps[i]);
                assert(a & y == y);
                assert((a | x) & y == y) by (bit_vector)
                    requires
                        a & y == y,
                ;
            } else {
                assert((a | x) & x == x) by (bit_vector);
            }
        }
    }
}

proof fn lemma_flags_append(a: Seq<PostProcess>, b: Seq<PostProcess>)
    ensures
        flags_of(a + b) == flags_of(a) | flags_of(b),
    decreases b.len(),
{
    let fa = flags_of(a);
    if b.len() == 0 {
        assert(a + b =~= a);
        assert(fa | 0 == fa) by (bit_vector);
    } else {
        let b0 = b.drop_last();
        lemma_flags_append(a, b0);
        assert((a + b).drop_last() =~= a + b0);
        assert((a + b).last() == b.last());
        let fb0 = flags_of(b0);
        let x = b.last().bits();
        assert((fa | fb0) | x == fa | (fb0 | x)) by (bit_vector);
    }
}

/// The mask does not depend on the order in which steps are listed: two
/// lists joined in either order give the same mask, the or of theirs.
pub proof fn lemma_flags_order_free(a: Seq<PostProcess>, b: Seq<PostProcess>)
    ensures
        flags_of(a + b) == flags_of(a) | flags_of(b),
        flags_of(a + b) == flags_of(b + a),
{
    lemma_flags_append(a, b);
    lemma_flags_append(b, a);
    let fa = flags_of(a);
    let fb = flags_of(b);
    assert(fa | fb == fb | fa) by (bit_vector);
}

/// A whole foreign scene.
#[derive(Debug)]
pub struct RawScene {
    pub flags: u32,
    pub meshes: RawArray<RawMesh>,
    pub materials: RawArray<RawMaterial>,
    pub textures: RawArray<RawTexture>,
    pub animations: RawArray<RawAnimation>,
    pub cameras: RawArray<RawCamera>,
    pub lights: RawArray<RawLight>,
    pub metadata: Option<RawMetadata>,
    pub root: Option<RawNode>,
}

/// An imported scene.
#[derive(Debug)]
pub struct Scene {
    pub materials: Vec<Material>,
    pub meshes: Vec<Mesh>,
    pub metadata: Option<MetaData>,
    pub animations: Vec<Animation>,
    pub cameras: Vec<Camera>,
    pub lights: Vec<Light>,
    /// The scene graph; its root is its node 0.
    pub root: Option<NodeTree>,
    /// The embedded textures, in the importer's order; materials refer to
    /// them by index.
    pub textures: Vec<Texture>,
    pub flags: u32,
}

/// The foreign scene is usable: every array in it holds what its count
/// says.
pub open spec fn raw_scene_wf(s: RawScene) -> bool {
    &&& s.meshes.wf()
    &&& forall|i: int| 0 <= i < s.meshes.elems().len() ==> raw_mesh_wf(#[trigger] s.meshes.elems()[i])
    &&& s.materials.wf()
    &&& forall|i: int|
        0 <= i < s.materials.elems().len() ==> (#[trigger] s.materials.elems()[i]).properties.wf()
    &&& s.textures.wf()
    &&& forall|i: int|
        0 <= i < s.textures.elems().len() ==> raw_texture_wf(#[trigger] s.textures.elems()[i])
    &&& s.animations.wf()
    &&& forall|i: int|
        0 <= i < s.animations.elems().len() ==> animation_wf(#[trigger] s.animations.elems()[i])
    &&& s.cameras.wf()
    &&& s.lights.wf()
    &&& (s.metadata matches Some(m) ==> raw_table_wf(m))
    &&& (s.root matches Some(n) ==> raw_wf(n))
}

/// `r` holds everything of the foreign scene `s`, each part converted.
pub open spec fn scene_built(s: RawScene, r: Scene) -> bool {
    &&& r.flags == s.flags
    &&& r.meshes@.len() == s.meshes.elems().len()
    &&& forall|i: int| 0 <= i < r.meshes@.len() ==> mesh_converted(s.meshes.elems()[i], #[trigger] r.meshes@[i])
    &&& r.materials@.len() == s.materials.elems().len()
    &&& forall|i: int|
        0 <= i < r.materials@.len() ==> material_built(
            s.materials.elems()[i],
            s.textures.elems(),
            #[trigger] r.materials@[i],
        )
    &&& r.textures@.len() == s.textures.elems().len()
    &&& forall|i: int|
        0 <= i < r.textures@.len() ==> texture_converted(s.textures.elems()[i], #[trigger] r.textures@[i])
    &&& r.animations@.len() == s.animations.elems().len()
    &&& forall|i: int|
        0 <= i < r.animations@.len() ==> animation_converted(
            s.animations.elems()[i],
            #[trigger] r.animations@[i],
        )
    &&& r.cameras@.len() == s.cameras.elems().len()
    &&& forall|i: int| 0 <= i < r.cameras@.len() ==> camera_converted(s.cameras.elems()[i], #[trigger] r.cameras@[i])
    &&& r.lights@.len() == s.lights.elems().len()
    &&& forall|i: int| 0 <= i < r.lights@.len() ==> light_converted(s.lights.elems()[i], #[trigger] r.lights@[i])
    &&& (r.metadata is Some <==> s.metadata is Some)
    &&& (s.metadata matches Some(m) ==> table_decoded(m, r.metadata->Some_0))
    &&& (r.root is Some <==> s.root is Some)
    &&& (s.root matches Some(n) ==> tree_wf(r.root->Some_0.nodes@) && mirrors(
        r.root->Some_0.nodes@,
        0,
        n,
    ))
}

fn convert_textures(textures: &RawArray<RawTexture>) -> (r: Vec<Texture>)
    requires
        textures.wf(),
        forall|i: int| 0 <= i < textures.elems().len() ==> raw_texture_wf(#[trigger] textures.elems()[i]),
    ensures
        r@.len() == textures.elems().len(),
        forall|i: int| 0 <= i < r@.len() ==> texture_converted(textures.elems()[i], #[trigger] r@[i]),
{
    let n = raw_len(textures);
    let mut out: Vec<Texture> = Vec::new();
    let mut i: usize = 0;
    while i < n
        invariant
            n == textures.elems().len(),
            textures.wf(),
            forall|j: int| 0 <= j < n ==> raw_texture_wf(#[trigger] textures.elems()[j]),
            i <= n,
            out@.len() == i,
            forall|j: int| 0 <= j < i ==> texture_converted(textures.elems()[j], #[trigger] out@[j]),
        decreases n - i,
    {
        out.push(Texture::from_raw(raw_at(textures, i)));
        i += 1;
    }
    out
}

impl Scene {
    /// Copies a whole foreign scene out, in one pass: nothing in the result
    /// refers to the foreign scene, which can be released afterwards.
    pub fn new(s: &RawScene) -> (r: Scene)
        requires
            raw_scene_wf(*s),
        ensures
            scene_built(*s, r),
    {
        let meshes = get_vec(&s.meshes, |m: &RawMesh| -> (r: Mesh) requires raw_mesh_wf(*m) ensures mesh_converted(*m, r) { Mesh::from(m) });
        let materials = generate_materials(&s.materials, &s.textures);
        let textures = convert_textures(&s.textures);
        let animations = get_vec(&s.animations, |a: &RawAnimation| -> (r: Animation) requires animation_wf(*a) ensures animation_converted(*a, r) { Animation::from(a) });
        let cameras = get_vec(&s.cameras, |c: &RawCamera| -> (r: Camera) ensures camera_converted(*c, r) { Camera::from(c) });
        let lights = get_vec(&s.lights, |l: &RawLight| -> (r: Light) ensures light_converted(*l, r) { Light::from(l) });
        let metadata = match &s.metadata {
            None => None,
            Some(m) => Some(MetaData::from(m)),
        };
        let root = match &s.root {
            None => None,
            Some(n) => Some(NodeTree::new(n)),
        };
        Scene { materials, meshes, metadata, animations, cameras, lights, root, textures, flags: s.flags }
    }

    /// The scene of an import: the importer's message as an import error when
    /// the import failed, else the whole foreign scene copied out.
    pub fn from_import(result: Result<RawScene, String>) -> (r: Russult<Scene>)
        requires
            result matches Ok(s) ==> raw_scene_wf(s),
        ensures
            result is Ok <==> r is Ok,
            result matches Ok(s) ==> scene_built(s, r->Ok_0),
            result matches Err(m) ==> (r matches Err(RussimpError::Import(e)) && e@ == m@),
    {
        match result {
            Ok(s) => Ok(Scene::new(&s)),
            Err(m) => Err(RussimpError::Import(m)),
        }
    }
}

/// Marshaling is deterministic: two scenes built from the same foreign
/// scene have the same flags, the same number of meshes and the same
/// vertices in each mesh.
pub proof fn lemma_import_deterministic(s: RawScene, a: Scene, b: Scene)
    requires
        scene_built(s, a),
        scene_built(s, b),
    ensures
        a.flags == b.flags,
        a.meshes@.len() == b.meshes@.len(),
        forall|i: int| 0 <= i < a.meshes@.len() ==> (#[trigger] a.meshes@[i]).vertices@ == b.meshes@[i].vertices@,
{
    assert forall|i: int| 0 <= i < a.meshes@.len() implies (#[trigger] a.meshes@[i]).vertices@ == b.meshes@[i].vertices@ by {
        assert(mesh_converted(s.meshes.elems()[i], a.meshes@[i]));
        assert(mesh_converted(s.meshes.elems()[i], b.meshes@[i]));
    }
}

} // verus!
