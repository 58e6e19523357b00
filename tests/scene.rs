use russimp::animation::RawAnimation;
use russimp::camera::RawCamera;
use russimp::light::{LightSourceType, RawLight};
use russimp::material::{PropertyReply, RawMaterial, RawMaterialProperty, PTI_STRING};
use russimp::raw::{RawArray, RawFace, RawMesh, RawNode};
use russimp::scene::{import_flags, PostProcess, RawScene, Scene};
use russimp::texture::RawTexture;
use russimp::{Matrix4x4, RussimpError, Vector3D, AABB};

fn v(x: f32, y: f32, z: f32) -> Vector3D {
    Vector3D { x: x.to_bits(), y: y.to_bits(), z: z.to_bits() }
}

fn triangle() -> RawMesh {
    RawMesh {
        name: "Triangle".to_string(),
        num_vertices: 3,
        vertices: Some(vec![v(1.0, 2.0, 3.0), v(4.0, 5.0, 6.0), v(7.0, 8.0, 9.0)]),
        normals: Some(vec![v(0.0, 0.0, 1.0); 3]),
        tangents: None,
        bitangents: None,
        texture_coords: vec![None; 8],
        colors: vec![None; 8],
        uv_components: vec![0; 8],
        primitive_types: 4,
        faces: RawArray::from_vec(vec![RawFace { indices: RawArray::from_vec(vec![0, 1, 2]) }]),
        bones: RawArray::null(0),
        anim_meshes: RawArray::null(0),
        material_index: 0,
        method: 0,
        aabb: AABB::default(),
    }
}

fn node(name: &str, kids: Vec<RawNode>) -> RawNode {
    let n = kids.len() as u32;
    RawNode {
        name: name.to_string(),
        transformation: Matrix4x4::default(),
        meshes: RawArray::null(0),
        metadata: None,
        children: Some(kids),
        num_children: n,
    }
}

fn minimal_scene(flags: u32) -> RawScene {
    let name = RawMaterialProperty {
        key: "?mat.name".to_string(),
        semantic: 0,
        index: 0,
        type_tag: PTI_STRING,
        data: vec![0; 4],
        reply: PropertyReply::Text("Default".to_string()),
    };
    RawScene {
        flags,
        meshes: RawArray::from_vec(vec![triangle()]),
        materials: RawArray::from_vec(vec![RawMaterial { properties: RawArray::from_vec(vec![name]), texture_slots: vec![] }]),
        textures: RawArray::null(0),
        animations: RawArray::<RawAnimation>::null(0),
        cameras: RawArray::<RawCamera>::null(0),
        lights: RawArray::<RawLight>::null(0),
        metadata: None,
        root: Some(node("Root", vec![node("Triangle", vec![])])),
    }
}

#[test]
fn scene_importing_invalid_file_returns_error() {
    let r = Scene::from_import(Err("Unable to open file \"models/box.blend\".".to_string()));
    match r {
        Err(RussimpError::Import(m)) => assert_eq!(m, "Unable to open file \"models/box.blend\"."),
        _ => panic!("expected an import error"),
    }
}

#[test]
fn scene_importing_valid_file_returns_scene() {
    let scene = Scene::from_import(Ok(minimal_scene(8))).unwrap();
    assert_eq!(8, scene.flags);
}

#[test]
fn minimal_model_has_one_triangle() {
    let scene = Scene::from_import(Ok(minimal_scene(0))).unwrap();
    assert_eq!(scene.meshes.len(), 1);
    assert_eq!(scene.meshes[0].vertices.len(), 3);
    assert_eq!(scene.meshes[0].faces[0].0, vec![0, 1, 2]);
    assert_eq!(scene.materials.len(), 1);
    assert_eq!(scene.materials[0].name(), Some("Default".to_string()));
    assert_eq!(scene.animations.len(), 0);
    let root = scene.root.as_ref().unwrap();
    assert_eq!(root.root().children.len(), 1);
    assert_eq!(scene.meshes[0].texture_coords.len(), 8);
    assert!(scene.meshes[0].tangents.is_empty());
}

#[test]
fn importing_twice_gives_the_same_scene() {
    let a = Scene::new(&minimal_scene(0x8b));
    let b = Scene::new(&minimal_scene(0x8b));
    assert_eq!(a.flags, b.flags);
    assert_eq!(a.meshes.len(), b.meshes.len());
    assert_eq!(a.meshes[0].vertices, b.meshes[0].vertices);
}

#[test]
fn flags_are_the_or_of_the_steps() {
    let steps = vec![
        PostProcess::CalculateTangentSpace,
        PostProcess::Triangulate,
        PostProcess::JoinIdenticalVertices,
        PostProcess::SortByPrimitiveType,
    ];
    assert_eq!(import_flags(&steps), 0x1 | 0x8 | 0x2 | 0x8000);
    let reversed: Vec<PostProcess> = steps.iter().rev().cloned().collect();
    assert_eq!(import_flags(&reversed), import_flags(&steps));
    assert_eq!(import_flags(&vec![]), 0);
    assert_eq!(import_flags(&vec![PostProcess::GenerateBoundingBoxes]), 0x8000_0000);
}

#[test]
fn lights_cameras_and_textures_are_carried() {
    let mut s = minimal_scene(0);
    s.lights = RawArray::from_vec(vec![RawLight {
        name: "Baz".to_string(),
        light_source_type: 5,
        pos: v(0.0, 0.0, 0.0),
        direction: v(0.0, 0.0, -1.0),
        up: v(0.0, 1.0, 0.0),
        attenuation_constant: 1.0f32.to_bits(),
        attenuation_linear: 0,
        attenuation_quadratic: 0,
        color_diffuse: Default::default(),
        color_specular: Default::default(),
        color_ambient: Default::default(),
        angle_inner_cone: 0,
        angle_outer_cone: 0,
        size: Default::default(),
    }]);
    s.cameras = RawArray::from_vec(vec![RawCamera {
        name: "Camera01".to_string(),
        aspect: 1.0f32.to_bits(),
        clip_plane_far: 1000.0f32.to_bits(),
        clip_plane_near: 0.1f32.to_bits(),
        horizontal_fov: 0.8f32.to_bits(),
        look_at: v(0.0, 0.0, 1.0),
        position: v(0.0, 0.0, 0.0),
        up: v(0.0, 1.0, 0.0),
    }]);
    s.textures = RawArray::from_vec(vec![RawTexture {
        width: 4,
        height: 0,
        ach_format_hint: "jpg".to_string(),
        filename: "t.jpg".to_string(),
        data: vec![1, 2, 3, 4],
    }]);
    let scene = Scene::new(&s);
    assert_eq!(scene.lights[0].name, "Baz");
    assert_eq!(scene.lights[0].light_source_type, LightSourceType::Area);
    assert_eq!(f32::from_bits(scene.cameras[0].clip_plane_far), 1000.0);
    assert_eq!(scene.textures.len(), 1);
    assert_eq!(scene.textures[0].width, 4);
}
