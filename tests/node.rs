use russimp::node::NodeTree;
use russimp::raw::{RawArray, RawNode};
use russimp::Matrix4x4;

fn identity() -> Matrix4x4 {
    let one = 1.0f32.to_bits();
    Matrix4x4 { a1: one, b2: one, c3: one, d4: one, ..Default::default() }
}

fn leaf(name: &str, meshes: Vec<u32>) -> RawNode {
    RawNode {
        name: name.to_string(),
        transformation: identity(),
        meshes: RawArray::from_vec(meshes),
        metadata: None,
        children: None,
        num_children: 0,
    }
}

fn with_children(name: &str, kids: Vec<RawNode>) -> RawNode {
    let n = kids.len() as u32;
    RawNode {
        name: name.to_string(),
        transformation: identity(),
        meshes: RawArray::null(0),
        metadata: None,
        children: Some(kids),
        num_children: n,
    }
}

fn blend_like() -> RawNode {
    with_children(
        "<BlenderRoot>",
        vec![leaf("Cube", vec![0]), leaf("Lamp", vec![]), with_children("Camera", vec![leaf("Target", vec![])])],
    )
}

#[test]
fn checking_nodes() {
    let tree = NodeTree::new(&blend_like());
    let root = tree.root();
    assert_eq!("<BlenderRoot>".to_string(), root.name);
    assert_eq!(3, root.children.len());
    assert_eq!("Cube".to_string(), tree.get(root.children[0]).name);
    assert_eq!("Lamp".to_string(), tree.get(root.children[1]).name);
    assert_eq!(0, root.meshes.len());
    assert!(root.metadata.is_none());
    assert_eq!(1.0, f32::from_bits(root.transformation.a1));
    assert_eq!(1.0, f32::from_bits(root.transformation.b2));
    assert_eq!(1.0, f32::from_bits(root.transformation.c3));
    assert_eq!(1.0, f32::from_bits(root.transformation.d4));
}

#[test]
fn childs_parent_name_matches() {
    let tree = NodeTree::new(&blend_like());
    let root = tree.root();
    let first_son = root.children[0];
    let dad = tree.parent(first_son).unwrap();
    assert_eq!(root.name, tree.get(dad).name);
}

#[test]
fn links_are_symmetric_and_root_has_no_parent() {
    let tree = NodeTree::new(&blend_like());
    assert_eq!(tree.len(), 5);
    assert_eq!(tree.parent(0), None);
    for i in 1..tree.len() {
        let p = tree.parent(i).unwrap();
        assert!(tree.get(p).children.contains(&i));
    }
    for i in 0..tree.len() {
        for &c in &tree.get(i).children {
            assert_eq!(tree.parent(c), Some(i));
        }
    }
}

#[test]
fn grandchildren_keep_their_order_and_depth() {
    let tree = NodeTree::new(&blend_like());
    let camera = tree.get(tree.root().children[2]);
    assert_eq!(camera.name, "Camera");
    assert_eq!(camera.children.len(), 1);
    let target = camera.children[0];
    assert_eq!(tree.get(target).name, "Target");
    let up = tree.parent(target).unwrap();
    assert_eq!(tree.parent(up), Some(0));
}

#[test]
fn mesh_indices_are_copied() {
    let tree = NodeTree::new(&blend_like());
    assert_eq!(tree.get(tree.root().children[0]).meshes, vec![0]);
}

#[test]
fn children_past_the_count_are_ignored() {
    let mut raw = blend_like();
    raw.num_children = 1;
    let tree = NodeTree::new(&raw);
    assert_eq!(tree.len(), 2);
    assert_eq!(tree.root().children.len(), 1);
}
