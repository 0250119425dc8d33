//! The scene graph that collision geometry is taken from: named nodes in a
//! forest, some of which refer to mesh data, carry a collision shape or are
//! tagged as contributors to the navigation mesh.

use vstd::prelude::*;

verus! {

/// A collision shape: built from the mesh `source` and never changed after.
/// `body` is what the physics engine made of that mesh.
pub struct CollisionShape<S> {
    pub source: usize,
    pub body: S,
}

/// A node of the scene graph.
pub struct SceneNode<S> {
    pub name: String,
    /// The node above this one; a parent is always older than its children.
    pub parent: Option<usize>,
    /// The mesh data that the node shows, as a place in the geometry registry.
    pub mesh: Option<usize>,
    pub shape: Option<CollisionShape<S>>,
    /// Does the node's geometry affect the navigation mesh?
    pub nav_contributor: bool,
    /// Cleared when the node is despawned. Its place is never used again.
    pub alive: bool,
    /// Set when the name is assigned, until the extractor has seen the node.
    pub newly_named: bool,
}

/// What contracts say of a node: all that it holds, the name as a sequence
/// of characters.
pub struct NodeView<S> {
    pub name: Seq<char>,
    pub parent: Option<usize>,
    pub mesh: Option<usize>,
    pub shape: Option<CollisionShape<S>>,
    pub nav_contributor: bool,
    pub alive: bool,
    pub newly_named: bool,
}

impl<S> View for SceneNode<S> {
    type V = NodeView<S>;

    open spec fn view(&self) -> NodeView<S> {
        NodeView {
            name: self.name@,
            parent: self.parent,
            mesh: self.mesh,
            shape: self.shape,
            nav_contributor: self.nav_contributor,
            alive: self.alive,
            newly_named: self.newly_named,
        }
    }
}

/// The views of a list of nodes.
pub open spec fn views_of<S>(nodes: Seq<SceneNode<S>>) -> Seq<NodeView<S>> {
    Seq::new(nodes.len(), |i: int| nodes[i]@)
}

/// Every parent is older than its child, and a live node has a live parent.
pub open spec fn forest<S>(nodes: Seq<NodeView<S>>) -> bool {
    forall|i: int|
        0 <= i < nodes.len() ==> match (#[trigger] nodes[i]).parent {
            Some(p) => p < i && (nodes[i].alive ==> nodes[p as int].alive),
            None => true,
        }
}

/// Node `i` is `root` or stands somewhere below it.
pub open spec fn in_subtree<S>(nodes: Seq<NodeView<S>>, root: int, i: int) -> bool
    decreases i,
{
    if i == root {
        true
    } else if 0 <= i < nodes.len() {
        match nodes[i].parent {
            Some(p) => p < i && in_subtree(nodes, root, p as int),
            None => false,
        }
    } else {
        false
    }
}

/// The scene after `root` and all that stands below it has been despawned.
pub open spec fn despawned<S>(nodes: Seq<NodeView<S>>, root: int) -> Seq<NodeView<S>> {
    Seq::new(
        nodes.len(),
        |i: int|
            if in_subtree(nodes, root, i) {
                NodeView { alive: false, ..nodes[i] }
            } else {
                nodes[i]
            },
    )
}

/// Node `c` is a live child of `n` that refers to mesh data.
pub open spec fn mesh_child<S>(nodes: Seq<NodeView<S>>, n: int, c: int) -> bool {
    &&& 0 <= c < nodes.len()
    &&& nodes[c].alive
    &&& nodes[c].parent == Some(n as usize)
    &&& nodes[c].mesh is Some
}

/// The oldest mesh-bearing child of `n` among the nodes from `from` on.
pub open spec fn first_mesh_child_from<S>(nodes: Seq<NodeView<S>>, n: int, from: int) -> Option<int>
    decreases nodes.len() - from,
{
    if from >= nodes.len() || from < 0 {
        None
    } else if mesh_child(nodes, n, from) {
        Some(from)
    } else {
        first_mesh_child_from(nodes, n, from + 1)
    }
}

/// The oldest mesh-bearing child of `n`.
pub open spec fn first_mesh_child<S>(nodes: Seq<NodeView<S>>, n: int) -> Option<int> {
    first_mesh_child_from(nodes, n, 0)
}

/// The number of mesh-bearing children of `n` among the first `upto` nodes.
pub open spec fn mesh_child_count<S>(nodes: Seq<NodeView<S>>, n: int, upto: int) -> nat
    decreases upto,
{
    if upto <= 0 {
        0
    } else {
        mesh_child_count(nodes, n, upto - 1) + (if mesh_child(nodes, n, upto - 1) {
            1nat
        } else {
            0nat
        })
    }
}

/// The scene after `shape` has been attached to `n`, together with the
/// contributor tag.
pub open spec fn attached<S>(nodes: Seq<NodeView<S>>, n: int, shape: CollisionShape<S>) -> Seq<
    NodeView<S>,
> {
    nodes.update(n, NodeView { shape: Some(shape), nav_contributor: true, ..nodes[n] })
}

/// The scene after the collider of `n` has been taken from its child `c`:
/// the child and all below it are gone, and `n` carries the tag and the
/// shape, whose source is the child's mesh and whose body is `body`.
pub open spec fn extracted<S>(nodes: Seq<NodeView<S>>, n: int, c: int, body: S) -> Seq<
    NodeView<S>,
> {
    attached(despawned(nodes, c), n, CollisionShape { source: nodes[c].mesh->Some_0, body })
}

/// A scene graph. Nodes are named by the order in which they were spawned;
/// a despawned node keeps its place, marked as gone.
pub struct Scene<S> {
    nodes: Vec<SceneNode<S>>,
}

impl<S> View for Scene<S> {
    type V = Seq<NodeView<S>>;

    closed spec fn view(&self) -> Seq<NodeView<S>> {
        views_of(self.nodes@)
    }
}

impl<S> Scene<S> {
    #[verifier::type_invariant]
    spec fn sound(&self) -> bool {
        forest(views_of(self.nodes@))
    }

    /// A scene without nodes.
    pub fn new() -> (scene: Self)
        ensures
            scene@.len() == 0,
    {
        let scene = Scene { nodes: Vec::new() };
        assert(scene@ =~= Seq::empty());
        scene
    }

    pub fn node_count(&self) -> (n: usize)
        ensures
            n == self@.len(),
    {
        self.nodes.len()
    }

    /// What holds of every scene: it is a forest. The call does nothing at
    /// run time.
    pub fn is_forest(&self)
        ensures
            forest(self@),
    {
        proof {
            use_type_invariant(self);
        }
    }

    /// Node `i`, to read.
    pub fn node(&self, i: usize) -> (node: &SceneNode<S>)
        requires
            i < self@.len(),
        ensures
            node@ == self@[i as int],
    {
        &self.nodes[i]
    }

    /// Adds a live node with a name that counts as just assigned. A parent,
    /// if one is given, has to be a live node of the scene: else nothing is
    /// added.
    pub fn spawn(&mut self, name: String, parent: Option<usize>, mesh: Option<usize>) -> (id:
        Option<usize>)
        ensures
            id is Some <==> (parent matches Some(p) ==> p < old(self)@.len() && old(
                self,
            )@[p as int].alive),
            id is None ==> final(self)@ == old(self)@,
            id matches Some(i) ==> i == old(self)@.len() && final(self)@ == old(self)@.push(
                NodeView {
                    name: name@,
                    parent,
                    mesh,
                    shape: None,
                    nav_contributor: false,
                    alive: true,
                    newly_named: true,
                },
            ),
    {
        proof {
            use_type_invariant(&*self);
        }
        let welcome = match parent {
            Some(p) => p < self.nodes.len() && self.nodes[p].alive,
            None => true,
        };
        if !welcome {
            return None;
        }
        let id: usize = self.nodes.len();
        let ghost before = self@;
        let node = SceneNode {
            name,
            parent,
            mesh,
            shape: None,
            nav_contributor: false,
            alive: true,
            newly_named: true,
        };
        let mut nodes: Vec<SceneNode<S>> = Vec::new();
        core::mem::swap(&mut self.nodes, &mut nodes);
        nodes.push(node);
        proof {
            assert(views_of(nodes@) =~= before.push(node@));
            assert(forest(views_of(nodes@)));
        }
        core::mem::swap(&mut self.nodes, &mut nodes);
        Some(id)
    }
}

impl<S> Scene<S> {
    /// Finds the oldest live child of `n` that refers to mesh data.
    pub fn find_mesh_child(&self, n: usize) -> (child: Option<usize>)
        ensures
            child is Some <==> first_mesh_child(self@, n as int) is Some,
            child matches Some(c) ==> first_mesh_child(self@, n as int) == Some(c as int)
                && mesh_child(self@, n as int, c as int),
    {
        let mut c: usize = 0;
        while c < self.nodes.len()
            invariant
                c <= self.nodes@.len(),
                first_mesh_child(self@, n as int) == first_mesh_child_from(
                    self@,
                    n as int,
                    c as int,
                ),
            decreases self.nodes.len() - c,
        {
            let node = &self.nodes[c];
            let hit = node.alive && node.mesh.is_some() && match node.parent {
                Some(p) => p == n,
                None => false,
            };
            if hit {
                return Some(c);
            }
            c += 1;
        }
        None
    }

    /// Despawns `root` and every node below it. The other nodes stay as they
    /// are.
    pub fn despawn_recursive(&mut self, root: usize)
        requires
            root < old(self)@.len(),
        ensures
            final(self)@ == despawned(old(self)@, root as int),
    {
        proof {
            use_type_invariant(&*self);
        }
        let ghost before = self@;
        let mut nodes: Vec<SceneNode<S>> = Vec::new();
        core::mem::swap(&mut self.nodes, &mut nodes);
        let len: usize = nodes.len();
        let mut inside: Vec<bool> = Vec::new();
        let mut i: usize = 0;
        while i < len
            invariant
                i <= len,
                len == nodes@.len(),
                inside@.len() == i,
                root < len,
                forest(before),
                before.len() == len,
                forall|j: int| 0 <= j < len ==> (#[trigger] nodes@[j]).parent == before[j].parent,
                forall|j: int| 0 <= j < i ==> inside@[j] == in_subtree(before, root as int, j),
                views_of(nodes@) == Seq::new(
                    len as nat,
                    |j: int|
                        if j < i && in_subtree(before, root as int, j) {
                            NodeView { alive: false, ..before[j] }
                        } else {
                            before[j]
                        },
                ),
            decreases len - i,
        {
            let below = i == root || match nodes[i].parent {
                Some(p) => p < i && inside[p],
                None => false,
            };
            assert(below == in_subtree(before, root as int, i as int));
            inside.push(below);
            let ghost earlier = nodes@;
            assert(views_of(earlier)[i as int] == before[i as int]);
            if below {
                nodes[i].alive = false;
            }
            proof {
                assert forall|j: int| 0 <= j < len && j != i implies nodes@[j] == earlier[j] by {}
                assert(nodes@.len() == len);
                assert forall|j: int| 0 <= j < len implies (#[trigger] views_of(nodes@)[j]) == (if j
                    < i + 1 && in_subtree(before, root as int, j) {
                    NodeView { alive: false, ..before[j] }
                } else {
                    before[j]
                }) by {
                    assert(views_of(earlier)[j] == earlier[j]@);
                }
                assert(views_of(nodes@) =~= Seq::new(
                    len as nat,
                    |j: int|
                        if j < i + 1 && in_subtree(before, root as int, j) {
                            NodeView { alive: false, ..before[j] }
                        } else {
                            before[j]
                        },
                ));
            }
            i += 1;
        }
        proof {
            assert(views_of(nodes@) =~= despawned(before, root as int));
            subtree_closed(before, root as int);
        }
        core::mem::swap(&mut self.nodes, &mut nodes);
    }

    /// Attaches `shape` and the contributor tag to node `n`.
    pub fn attach_shape(&mut self, n: usize, shape: CollisionShape<S>)
        requires
            n < old(self)@.len(),
        ensures
            final(self)@ == attached(old(self)@, n as int, shape),
    {
        proof {
            use_type_invariant(&*self);
        }
        let ghost before = self@;
        let mut nodes: Vec<SceneNode<S>> = Vec::new();
        core::mem::swap(&mut self.nodes, &mut nodes);
        nodes[n].shape = Some(shape);
        nodes[n].nav_contributor = true;
        proof {
            assert(views_of(nodes@) =~= attached(before, n as int, shape));
        }
        core::mem::swap(&mut self.nodes, &mut nodes);
    }
}

/// Despawning a subtree leaves a forest a forest: whoever stands below a
/// despawned node is despawned with it.
pub proof fn subtree_closed<S>(nodes: Seq<NodeView<S>>, root: int)
    requires
        forest(nodes),
    ensures
        forest(despawned(nodes, root)),
{
    let after = despawned(nodes, root);
    assert forall|i: int| 0 <= i < after.len() implies match (#[trigger] after[i]).parent {
        Some(p) => p < i && (after[i].alive ==> after[p as int].alive),
        None => true,
    } by {
        assert(nodes[i].parent == after[i].parent);
    }
}

impl<S> Scene<S> {
    /// Marks the name of node `n` as seen by the extractor.
    pub fn acknowledge(&mut self, n: usize)
        requires
            n < old(self)@.len(),
        ensures
            final(self)@ == acknowledged(old(self)@, n as int),
    {
        proof {
            use_type_invariant(&*self);
        }
        let ghost before = self@;
        let mut nodes: Vec<SceneNode<S>> = Vec::new();
        core::mem::swap(&mut self.nodes, &mut nodes);
        nodes[n].newly_named = false;
        proof {
            assert(views_of(nodes@) =~= acknowledged(before, n as int));
        }
        core::mem::swap(&mut self.nodes, &mut nodes);
    }
}

/// The scene after the extractor has seen the name of node `n`.
pub open spec fn acknowledged<S>(nodes: Seq<NodeView<S>>, n: int) -> Seq<NodeView<S>> {
    nodes.update(n, NodeView { newly_named: false, ..nodes[n] })
}

} // verus!
