//! The scene graph, rebuilt as an arena.
//!
//! Nodes live in one vector and refer to each other by index: a node lists
//! its children's indices and names its parent's index. The links are
//! symmetric: a node's parent lists it among its children, and the root has
//! no parent. Nodes are laid out in depth-first order, children in the
//! importer's order.
use vstd::prelude::*;

use crate::adapter::get_raw_vec;
use crate::metadata::{raw_table_wf, table_decoded, MetaData};
use crate::raw::RawNode;
use crate::Matrix4x4;

verus! {

/// One node of the scene graph.
#[derive(Debug)]
pub struct Node {
    pub name: String,
    /// Indices of the children, in the importer's order.
    pub children: Vec<usize>,
    /// Index of the parent; `None` for the root.
    pub parent: Option<usize>,
    /// Indices into the scene's meshes.
    pub meshes: Vec<u32>,
    pub metadata: Option<MetaData>,
    pub transformation: Matrix4x4,
}

/// A scene graph; the root is the node at index 0.
#[derive(Debug)]
pub struct NodeTree {
    pub nodes: Vec<Node>,
}

/// The children of a foreign node.
pub open spec fn raw_kids(n: RawNode) -> Seq<RawNode> {
    match n.children {
        None => Seq::empty(),
        Some(v) => if n.num_children <= v.len() {
            v@.subrange(0, n.num_children as int)
        } else {
            v@
        },
    }
}

proof fn lemma_kid_decreases(n: RawNode, k: int)
    requires
        0 <= k < raw_kids(n).len(),
    ensures
        decreases_to!(n => raw_kids(n)[k]),
{
    let v = n.children->Some_0;
    assert(raw_kids(n)[k] == v@[k]);
    assert(decreases_to!(v => v@[k])) by {
        vstd::std_specs::vec::axiom_vec_index_decreases(v, k);
    }
    assert(decreases_to!(n => n.children));
    assert(decreases_to!(n.children => v));
}

#[via_fn]
proof fn raw_wf_decreases(n: RawNode) {
    assert forall|k: int| 0 <= k < raw_kids(n).len() implies decreases_to!(n => raw_kids(n)[k]) by {
        lemma_kid_decreases(n, k);
    }
}

#[via_fn]
proof fn mirrors_decreases(nodes: Seq<Node>, i: int, raw: RawNode) {
    assert forall|k: int| 0 <= k < raw_kids(raw).len() implies decreases_to!(raw => raw_kids(raw)[k]) by {
        lemma_kid_decreases(raw, k);
    }
}

/// The foreign tree is usable: every array in it is null or holds its count.
pub open spec fn raw_wf(n: RawNode) -> bool
    decreases n via raw_wf_decreases
{
    &&& n.meshes.wf()
    &&& (n.metadata matches Some(m) ==> raw_table_wf(m))
    &&& (n.children matches Some(v) ==> n.num_children <= v.len())
    &&& forall|k: int| 0 <= k < raw_kids(n).len() ==> raw_wf(#[trigger] raw_kids(n)[k])
}

/// A node holds the scalar fields of a foreign node.
pub open spec fn node_matches(node: Node, raw: RawNode) -> bool {
    &&& node.name@ == raw.name@
    &&& node.meshes@ == raw.meshes.elems()
    &&& node.transformation == raw.transformation
    &&& node.metadata is Some <==> raw.metadata is Some
    &&& (raw.metadata matches Some(m) ==> table_decoded(m, node.metadata->Some_0))
}

/// The subtree at index `i` of `nodes` has the shape and contents of `raw`;
/// every index in it lies above `i`.
pub open spec fn mirrors(nodes: Seq<Node>, i: int, raw: RawNode) -> bool
    decreases raw via mirrors_decreases
{
    &&& 0 <= i < nodes.len()
    &&& node_matches(nodes[i], raw)
    &&& nodes[i].children@.len() == raw_kids(raw).len()
    &&& forall|k: int|
        #![trigger nodes[i].children@[k]]
        0 <= k < raw_kids(raw).len() ==> {
            &&& i < nodes[i].children@[k] < nodes.len()
            &&& mirrors(nodes, nodes[i].children@[k] as int, raw_kids(raw)[k])
        }
}

/// The links among the nodes at `lo .. hi` are symmetric and stay within
/// that range, each child above its parent and each node's children in
/// increasing order, so no index is listed twice; `lo` is the range's top
/// node.
pub open spec fn seg_wf(nodes: Seq<Node>, lo: int, hi: int) -> bool {
    &&& 0 <= lo < hi <= nodes.len()
    &&& forall|i: int, k1: int, k2: int|
        #![trigger nodes[i].children@[k1], nodes[i].children@[k2]]
        lo <= i < hi && 0 <= k1 < k2 < nodes[i].children@.len() ==> nodes[i].children@[k1]
            < nodes[i].children@[k2]
    &&& forall|i: int, k: int|
        #![trigger nodes[i].children@[k]]
        lo <= i < hi && 0 <= k < nodes[i].children@.len() ==> {
            let c = nodes[i].children@[k] as int;
            &&& i < c < hi
            &&& nodes[c].parent == Some(i as usize)
        }
    &&& forall|i: int|
        lo < i < hi ==> match #[trigger] nodes[i].parent {
            None => false,
            Some(p) => lo <= p < i && nodes[p as int].children@.contains(i as usize),
        }
}

/// A whole scene graph is well formed: its links are symmetric and its root,
/// at index 0, has no parent.
pub open spec fn tree_wf(nodes: Seq<Node>) -> bool {
    &&& nodes.len() > 0
    &&& seg_wf(nodes, 0, nodes.len() as int)
    &&& nodes[0].parent is None
}

proof fn lemma_mirrors_frame(s1: Seq<Node>, s2: Seq<Node>, i: int, raw: RawNode)
    requires
        mirrors(s1, i, raw),
        s1.len() <= s2.len(),
        forall|j: int| i <= j < s1.len() ==> s2[j] == s1[j],
    ensures
        mirrors(s2, i, raw),
    decreases raw,
{
    assert forall|k: int|
        #![trigger s2[i].children@[k]]
        0 <= k < raw_kids(raw).len() implies {
            &&& i < s2[i].children@[k] < s2.len()
            &&& mirrors(s2, s2[i].children@[k] as int, raw_kids(raw)[k])
        } by {
        assert(s2[i] == s1[i]);
        let c = s1[i].children@[k] as int;
        assert(i < c < s1.len() && mirrors(s1, c, raw_kids(raw)[k]));
        lemma_kid_decreases(raw, k);
        lemma_mirrors_frame(s1, s2, c, raw_kids(raw)[k]);
    }
}

fn clone_name(s: &String) -> (r: String)
    ensures
        r@ == s@,
{
    s.clone()
}

impl Node {
    /// Builds the subtree of `raw` at the end of `arena`, its top node linked
    /// to `parent`, and returns the top node's index.
    pub fn allocate(raw: &RawNode, parent: Option<usize>, arena: &mut Vec<Node>) -> (r: usize)
        requires
            raw_wf(*raw),
        ensures
            r == old(arena)@.len(),
            final(arena)@.len() > r,
            forall|j: int| 0 <= j < r ==> final(arena)@[j] == old(arena)@[j],
            final(arena)@[r as int].parent == parent,
            seg_wf(final(arena)@, r as int, final(arena)@.len() as int),
            mirrors(final(arena)@, r as int, *raw),
        decreases *raw,
    {
        let me = arena.len();
        let metadata = match &raw.metadata {
            None => None,
            Some(m) => Some(MetaData::from(m)),
        };
        let top = Node {
            name: clone_name(&raw.name),
            children: Vec::new(),
            parent,
            meshes: get_raw_vec(&raw.meshes),
            metadata,
            transformation: raw.transformation,
        };
        arena.push(top);
        let ghost kids = raw_kids(*raw);
        match &raw.children {
            None => {},
            Some(v) => {
        let n: usize = raw.num_children as usize;
        let mut k: usize = 0;
        while k < n
            invariant
                kids == raw_kids(*raw),
                raw.children == Some(*v),
                n <= v.len(),
                n == kids.len(),
                raw_wf(*raw),
                0 <= k <= n,
                arena@.len() > me,
                me == old(arena)@.len(),
                forall|j: int| 0 <= j < me ==> arena@[j] == old(arena)@[j],
                arena@[me as int].parent == parent,
                node_matches(arena@[me as int], *raw),
                arena@[me as int].children@.len() == k,
                seg_wf(arena@, me as int, arena@.len() as int),
                forall|q: int|
                    #![trigger arena@[me as int].children@[q]]
                    0 <= q < k ==> {
                        &&& me < arena@[me as int].children@[q] < arena@.len()
                        &&& mirrors(arena@, arena@[me as int].children@[q] as int, kids[q])
                    },
            decreases n - k,
        {
            let kid = &v[k];
            proof {
                assert(*kid == kids[k as int]);
                lemma_kid_decreases(*raw, k as int);
            }
            let ghost before = arena@;
            let c = Self::allocate(kid, Some(me), arena);
            let ghost mid = arena@;
            arena[me].children.push(c);
            proof {
                let after = arena@;
                assert(after[me as int].children@ == mid[me as int].children@.push(c));
                assert forall|j: int| 0 <= j < after.len() && j != me implies after[j] == mid[j] by {}
                // Earlier subtrees are untouched by the new one and by the push.
                assert forall|q: int|
                    #![trigger after[me as int].children@[q]]
                    0 <= q < k + 1 implies {
                        &&& me < after[me as int].children@[q] < after.len()
                        &&& mirrors(after, after[me as int].children@[q] as int, kids[q])
                    } by {
                    if q < k {
                        let cq = before[me as int].children@[q] as int;
                        assert(after[me as int].children@[q] == cq);
                        lemma_mirrors_frame(before, mid, cq, kids[q]);
                        lemma_mirrors_frame(mid, after, cq, kids[q]);
                    } else {
                        lemma_mirrors_frame(mid, after, c as int, kids[q]);
                    }
                }
                assert(seg_wf(after, me as int, after.len() as int)) by {
                    assert forall|i: int, k1: int, k2: int|
                        #![trigger after[i].children@[k1], after[i].children@[k2]]
                        me <= i < after.len() && 0 <= k1 < k2 < after[i].children@.len()
                            implies after[i].children@[k1] < after[i].children@[k2] by {
                        if i == me {
                            assert(after[i].children@[k1] == before[i].children@[k1]);
                            if k2 < k {
                                assert(after[i].children@[k2] == before[i].children@[k2]);
                            } else {
                                assert(after[i].children@[k2] == c);
                                assert(before[me as int].children@[k1] < before.len());
                            }
                        } else if i < c {
                            assert(before[i] == after[i]);
                        } else {
                            assert(mid[i] == after[i]);
                        }
                    }
                    assert forall|i: int, q: int|
                        #![trigger after[i].children@[q]]
                        me <= i < after.len() && 0 <= q < after[i].children@.len() implies {
                            let cc = after[i].children@[q] as int;
                            &&& i < cc < after.len()
                            &&& after[cc].parent == Some(i as usize)
                        } by {
                        if i == me {
                            if q < k {
                                assert(before[me as int].children@[q] == after[i].children@[q]);
                                assert(before[i].children@[q] == mid[i].children@[q]);
                            }
                        } else if i < c {
                            assert(before[i] == after[i]);
                            assert(before[i].children@[q] == mid[i].children@[q]);
                        } else {
                            assert(mid[i] == after[i]);
                            assert(mid[i].children@[q] == after[i].children@[q]);
                        }
                    }
                    assert forall|i: int|
                        me < i < after.len() implies match #[trigger] after[i].parent {
                            None => false,
                            Some(p) => me <= p < i && after[p as int].children@.contains(
                                i as usize,
                            ),
                        } by {
                        if i < c {
                            assert(before[i] == after[i]);
                            let p = before[i].parent->Some_0;
                            assert(before[i].parent == mid[i].parent);
                            if p as int != me as int {
                                assert(after[p as int] == mid[p as int]);
                                assert(before[p as int] == mid[p as int]);
                            } else {
                                let w = choose|w: int|
                                    0 <= w < before[p as int].children@.len()
                                        && before[p as int].children@[w] == i as usize;
                                assert(after[p as int].children@[w] == i as usize);
                            }
                        } else if i == c {
                            assert(after[me as int].children@[k as int] == c);
                        } else {
                            assert(mid[i] == after[i]);
                            let p = mid[i].parent->Some_0;
                            assert(p as int != me as int);
                            assert(after[p as int] == mid[p as int]);
                        }
                    }
                }
            }
            k += 1;
        }
            },
        }
        proof {
            assert(mirrors(arena@, me as int, *raw));
        }
        me
    }
}

impl NodeTree {
    /// The scene graph of a foreign root node.
    pub fn new(raw: &RawNode) -> (r: NodeTree)
        requires
            raw_wf(*raw),
        ensures
            tree_wf(r.nodes@),
            mirrors(r.nodes@, 0, *raw),
    {
        let mut nodes: Vec<Node> = Vec::new();
        Node::allocate(raw, None, &mut nodes);
        NodeTree { nodes }
    }
}

impl NodeTree {
    /// The scene graph is well formed.
    pub open spec fn wf(&self) -> bool {
        tree_wf(self.nodes@)
    }

    /// The number of nodes.
    pub fn len(&self) -> (r: usize)
        ensures
            r == self.nodes@.len(),
    {
        self.nodes.len()
    }

    /// The root node.
    pub fn root(&self) -> (r: &Node)
        requires
            self.wf(),
        ensures
            *r == self.nodes@[0],
    {
        &self.nodes[0]
    }

    /// The node at index `i`.
    pub fn get(&self, i: usize) -> (r: &Node)
        requires
            i < self.nodes@.len(),
        ensures
            *r == self.nodes@[i as int],
    {
        &self.nodes[i]
    }

    /// The index of the parent of node `i`; `None` for the root.
    pub fn parent(&self, i: usize) -> (r: Option<usize>)
        requires
            self.wf(),
            i < self.nodes@.len(),
        ensures
            r == self.nodes@[i as int].parent,
            r is None <==> i == 0,
            r matches Some(p) ==> p < i && self.nodes@[p as int].children@.contains(i),
    {
        proof {
            lemma_parent_child_symmetry(*self, i as int);
        }
        self.nodes[i].parent
    }
}

/// The links of a well-formed scene graph are symmetric: a node with a
/// parent is among its parent's children, each child of a node names that
/// node as its parent, only the root has no parent, and no node lists a
/// child twice.
pub proof fn lemma_parent_child_symmetry(t: NodeTree, i: int)
    requires
        tree_wf(t.nodes@),
        0 <= i < t.nodes@.len(),
    ensures
        t.nodes@[0].parent is None,
        t.nodes@[i].parent is None <==> i == 0,
        t.nodes@[i].parent matches Some(p) ==> p < i && t.nodes@[p as int].children@.contains(
            i as usize,
        ),
        forall|k: int|
            0 <= k < t.nodes@[i].children@.len() ==> {
                let c = #[trigger] t.nodes@[i].children@[k] as int;
                &&& i < c < t.nodes@.len()
                &&& t.nodes@[c].parent == Some(i as usize)
            },
        forall|k1: int, k2: int|
            0 <= k1 < t.nodes@[i].children@.len() && 0 <= k2 < t.nodes@[i].children@.len() && k1
                != k2 ==> #[trigger] t.nodes@[i].children@[k1] != #[trigger] t.nodes@[i].children@[k2],
{
    let s = t.nodes@;
    assert forall|k1: int, k2: int|
        0 <= k1 < s[i].children@.len() && 0 <= k2 < s[i].children@.len() && k1 != k2 implies
            #[trigger] s[i].children@[k1] != #[trigger] s[i].children@[k2] by {
        if k1 < k2 {
            assert(s[i].children@[k1] < s[i].children@[k2]);
        } else {
            assert(s[i].children@[k2] < s[i].children@[k1]);
        }
    }
    if i > 0 {
        assert(match s[i].parent {
            None => false,
            Some(p) => 0 <= p < i && s[p as int].children@.contains(i as usize),
        });
    }
}

} // verus!
