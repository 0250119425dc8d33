//! The collider extractor: it looks at the nodes whose name was just
//! assigned, takes those that follow the collider naming convention, builds
//! a collision shape from the mesh of the first mesh-bearing child, despawns
//! that child and tags the node as a contributor to the navigation mesh.

use bevy::render::mesh::Mesh;
use bevy_rapier3d::geometry::Collider;
use vstd::prelude::*;
use crate::collider::{
    build_trimesh_collider, mesh_buildable, trimesh_of, ColliderExtractionError,
};
use crate::naming::{is_collider_name, names_collider};
use crate::scene::{
    acknowledged, extracted, first_mesh_child, first_mesh_child_from, forest, in_subtree,
    mesh_child, mesh_child_count, CollisionShape, NodeView, Scene,
};

verus! {

/// The mesh data of the scene, read-only for the extractor. A node refers to
/// a mesh by its place here.
pub struct GeometryRegistry {
    meshes: Vec<Mesh>,
}

impl View for GeometryRegistry {
    type V = Seq<Mesh>;

    closed spec fn view(&self) -> Seq<Mesh> {
        self.meshes@
    }
}

impl GeometryRegistry {
    pub fn new() -> (registry: Self)
        ensures
            registry@.len() == 0,
    {
        GeometryRegistry { meshes: Vec::new() }
    }

    /// Takes a mesh in and tells its place.
    pub fn add(&mut self, mesh: Mesh) -> (place: usize)
        ensures
            place == old(self)@.len(),
            final(self)@ == old(self)@.push(mesh),
    {
        let place: usize = self.meshes.len();
        self.meshes.push(mesh);
        place
    }

    pub fn len(&self) -> (n: usize)
        ensures
            n == self@.len(),
    {
        self.meshes.len()
    }

    /// The mesh at `place`, if there is one.
    pub fn get(&self, place: usize) -> (mesh: Option<&Mesh>)
        ensures
            mesh is Some <==> place < self@.len(),
            mesh matches Some(m) ==> *m == self@[place as int],
    {
        if place < self.meshes.len() {
            Some(&self.meshes[place])
        } else {
            None
        }
    }
}

/// For each mesh of a registry, the collider that the physics engine builds
/// from it, or none where the mesh makes no triangle mesh.
pub open spec fn built_shapes(meshes: Seq<Mesh>) -> Seq<Option<Collider>> {
    Seq::new(
        meshes.len(),
        |m: int|
            if mesh_buildable(meshes[m]) {
                Some(trimesh_of(meshes[m]))
            } else {
                None
            },
    )
}

/// The body of the shape that node `n` gets from its child `c`: what the
/// geometry holds for the child's mesh.
pub open spec fn body_from<S>(nodes: Seq<NodeView<S>>, geometry: Seq<Option<S>>, c: int) -> S {
    geometry[nodes[c].mesh->Some_0 as int]->Some_0
}

/// What the extraction of node `n` comes to: the child that gives its mesh,
/// or the reason why no collider can be taken. `geometry` holds for each
/// mesh in the registry the shape body that is built from it, if any.
pub open spec fn verdict<S>(nodes: Seq<NodeView<S>>, geometry: Seq<Option<S>>, n: int) -> Result<
    int,
    ColliderExtractionError,
> {
    match first_mesh_child(nodes, n) {
        None => Err(ColliderExtractionError::MissingColliderGeometry),
        Some(c) => {
            let source = nodes[c].mesh->Some_0;
            if source >= geometry.len() {
                Err(ColliderExtractionError::MissingColliderGeometry)
            } else if geometry[source as int] is None {
                Err(ColliderExtractionError::ColliderBuildError)
            } else {
                Ok(c)
            }
        },
    }
}

/// Takes the collider of node `n` from its first mesh-bearing child: builds
/// the triangle-mesh collider of the child's mesh, despawns the child with
/// all below it, and attaches that collider, with the mesh as its source,
/// and the contributor tag to `n`. Where no collider can be taken the scene
/// stays as it is.
pub fn extract_collider(scene: &mut Scene<Collider>, registry: &GeometryRegistry, n: usize) -> (done:
    Result<usize, ColliderExtractionError>)
    ensures
        match verdict(old(scene)@, built_shapes(registry@), n as int) {
            Ok(c) => done == Ok::<usize, ColliderExtractionError>(c as usize) && final(scene)@
                == extracted(
                old(scene)@,
                n as int,
                c,
                body_from(old(scene)@, built_shapes(registry@), c),
            ),
            Err(e) => done == Err::<usize, ColliderExtractionError>(e) && final(scene)@ == old(
                scene,
            )@,
        },
{
    let child = match scene.find_mesh_child(n) {
        Some(c) => c,
        None => {
            return Err(ColliderExtractionError::MissingColliderGeometry);
        },
    };
    let source: usize = match scene.node(child).mesh {
        Some(m) => m,
        None => {
            return Err(ColliderExtractionError::MissingColliderGeometry);
        },
    };
    let mesh = match registry.get(source) {
        Some(m) => m,
        None => {
            return Err(ColliderExtractionError::MissingColliderGeometry);
        },
    };
    let body = match build_trimesh_collider(mesh) {
        Ok(collider) => collider,
        Err(e) => {
            return Err(e);
        },
    };
    scene.is_forest();
    scene.despawn_recursive(child);
    scene.attach_shape(n, CollisionShape { source, body });
    Ok(child)
}

/// What the extractor says of one node that it has worked on: the child that
/// was despawned for its mesh, or why no collider was taken.
#[derive(Clone, Copy, Debug, PartialEq, Eq)]
pub struct ExtractionReport {
    pub node: usize,
    pub outcome: Result<usize, ColliderExtractionError>,
}

/// The extractor works on a node that is alive, whose name was just assigned
/// and follows the convention.
pub open spec fn due<S>(nodes: Seq<NodeView<S>>, n: int) -> bool {
    &&& nodes[n].alive
    &&& nodes[n].newly_named
    &&& names_collider(nodes[n].name)
}

/// The scene after the extractor has passed node `n`: where the node was due
/// and a collider could be taken, it was, and the name counts as seen.
pub open spec fn step<S>(nodes: Seq<NodeView<S>>, geometry: Seq<Option<S>>, n: int) -> Seq<NodeView<S>> {
    if due(nodes, n) {
        match verdict(nodes, geometry, n) {
            Ok(c) => acknowledged(extracted(nodes, n, c, body_from(nodes, geometry, c)), n),
            Err(_) => acknowledged(nodes, n),
        }
    } else {
        acknowledged(nodes, n)
    }
}

/// The scene after the extractor has passed the first `upto` nodes.
pub open spec fn run_upto<S>(nodes: Seq<NodeView<S>>, geometry: Seq<Option<S>>, upto: int) -> Seq<NodeView<S>>
    decreases upto,
{
    if upto <= 0 {
        nodes
    } else {
        step(run_upto(nodes, geometry, upto - 1), geometry, upto - 1)
    }
}

/// The reports of the extractor on the first `upto` nodes, one for each node
/// that was due when the extractor came to it.
pub open spec fn reports_upto<S>(nodes: Seq<NodeView<S>>, geometry: Seq<Option<S>>, upto: int) -> Seq<
    ExtractionReport,
>
    decreases upto,
{
    if upto <= 0 {
        Seq::empty()
    } else {
        let earlier = reports_upto(nodes, geometry, upto - 1);
        let now = run_upto(nodes, geometry, upto - 1);
        if due(now, upto - 1) {
            earlier.push(
                ExtractionReport {
                    node: (upto - 1) as usize,
                    outcome: match verdict(now, geometry, upto - 1) {
                        Ok(c) => Ok(c as usize),
                        Err(e) => Err(e),
                    },
                },
            )
        } else {
            earlier
        }
    }
}

/// The scene after one pass of the extractor over all nodes.
pub open spec fn run<S>(nodes: Seq<NodeView<S>>, geometry: Seq<Option<S>>) -> Seq<NodeView<S>> {
    run_upto(nodes, geometry, nodes.len() as int)
}

/// The reports of one pass of the extractor over all nodes.
pub open spec fn reports<S>(nodes: Seq<NodeView<S>>, geometry: Seq<Option<S>>) -> Seq<ExtractionReport> {
    reports_upto(nodes, geometry, nodes.len() as int)
}

/// One pass of the extractor: every live node whose name was just assigned
/// and contains `collider`, in any case, gets the collider of its first
/// mesh-bearing child, and that child is despawned. A node that gives no
/// collider is reported and left as it is. Afterwards no name counts as just
/// assigned, so that a second pass finds nothing to do.
pub fn read_colliders(scene: &mut Scene<Collider>, registry: &GeometryRegistry) -> (found: Vec<
    ExtractionReport,
>)
    ensures
        final(scene)@ == run(old(scene)@, built_shapes(registry@)),
        found@ == reports(old(scene)@, built_shapes(registry@)),
{
    let mut found: Vec<ExtractionReport> = Vec::new();
    let count: usize = scene.node_count();
    let ghost geometry = built_shapes(registry@);
    let mut n: usize = 0;
    while n < count
        invariant
            n <= count,
            count == old(scene)@.len(),
            scene@.len() == count,
            geometry == built_shapes(registry@),
            scene@ == run_upto(old(scene)@, geometry, n as int),
            found@ == reports_upto(old(scene)@, geometry, n as int),
        decreases count - n,
    {
        let node = scene.node(n);
        let is_due = node.alive && node.newly_named && is_collider_name(node.name.as_str());
        if is_due {
            let outcome = extract_collider(scene, registry, n);
            found.push(ExtractionReport { node: n, outcome });
        }
        scene.acknowledge(n);
        n += 1;
    }
    found
}

/// The search for the first mesh-bearing child finds the oldest one, and
/// finds none only where there is none.
pub proof fn first_child_is_oldest<S>(nodes: Seq<NodeView<S>>, n: int, from: int)
    requires
        0 <= from,
    ensures
        match first_mesh_child_from(nodes, n, from) {
            Some(c) => from <= c && mesh_child(nodes, n, c) && forall|j: int|
                from <= j < c ==> !mesh_child(nodes, n, j),
            None => forall|j: int| from <= j ==> !mesh_child(nodes, n, j),
        },
    decreases nodes.len() - from,
{
    if from < nodes.len() && !mesh_child(nodes, n, from) {
        first_child_is_oldest(nodes, n, from + 1);
    }
}

/// Where no node is a mesh-bearing child, the count of them is zero, and
/// the other way round.
pub proof fn count_tells_children<S>(nodes: Seq<NodeView<S>>, n: int, upto: int)
    requires
        0 <= upto <= nodes.len(),
    ensures
        mesh_child_count(nodes, n, upto) == 0 <==> forall|j: int|
            0 <= j < upto ==> !mesh_child(nodes, n, j),
    decreases upto,
{
    if upto > 0 {
        count_tells_children(nodes, n, upto - 1);
        if mesh_child_count(nodes, n, upto) == 0 {
            assert forall|j: int| 0 <= j < upto implies !mesh_child(nodes, n, j) by {
                if j < upto - 1 {
                }
            }
        }
    }
}

/// Whatever stands below a node is younger than the node.
pub proof fn subtree_is_younger<S>(nodes: Seq<NodeView<S>>, root: int, i: int)
    requires
        in_subtree(nodes, root, i),
        0 <= root,
    ensures
        root <= i,
    decreases i,
{
    if i != root {
        subtree_is_younger(nodes, root, nodes[i].parent->Some_0 as int);
    }
}

/// For every node with exactly one mesh-bearing child whose mesh makes a
/// collider, extraction succeeds with that child; afterwards the node carries
/// one shape, which is the one built from the child's mesh, and the
/// contributor tag, the child is gone, and no other node has gained or lost
/// a shape or a tag.
pub proof fn one_child_gives_one_shape<S>(
    nodes: Seq<NodeView<S>>,
    geometry: Seq<Option<S>>,
    node: usize,
)
    requires
        forest(nodes),
        node < nodes.len(),
        mesh_child_count(nodes, node as int, nodes.len() as int) == 1,
        forall|c: int| #[trigger]
            mesh_child(nodes, node as int, c) ==> nodes[c].mesh->Some_0 < geometry.len()
                && geometry[nodes[c].mesh->Some_0 as int] is Some,
    ensures
        verdict(nodes, geometry, node as int) is Ok,
        ({
            let n = node as int;
            let c = verdict(nodes, geometry, n)->Ok_0;
            let source = nodes[c].mesh->Some_0;
            let after = extracted(nodes, n, c, body_from(nodes, geometry, c));
            &&& mesh_child(nodes, n, c)
            &&& after.len() == nodes.len()
            &&& after[n].shape == Some(
                CollisionShape { source, body: geometry[source as int]->Some_0 },
            )
            &&& after[n].nav_contributor
            &&& after[n].alive == nodes[n].alive
            &&& !after[c].alive
            &&& forall|i: int|
                0 <= i < nodes.len() && i != n ==> (#[trigger] after[i]).shape == nodes[i].shape
                    && after[i].nav_contributor == nodes[i].nav_contributor
        }),
{
    let n = node as int;
    count_tells_children(nodes, n, nodes.len() as int);
    first_child_is_oldest(nodes, n, 0);
    let c = first_mesh_child(nodes, n)->Some_0;
    assert(mesh_child(nodes, n, c));
    assert(n < c);
    if in_subtree(nodes, c, n) {
        subtree_is_younger(nodes, c, n);
    }
}

/// For every node without a mesh-bearing child, extraction fails for want of
/// collider geometry, and a pass of the extractor over the node changes
/// nothing in the scene but that the name counts as seen.
pub proof fn no_child_gives_missing_geometry<S>(nodes: Seq<NodeView<S>>, geometry: Seq<Option<S>>, node: usize)
    requires
        node < nodes.len(),
        mesh_child_count(nodes, node as int, nodes.len() as int) == 0,
    ensures
        verdict(nodes, geometry, node as int) == Err::<int, ColliderExtractionError>(
            ColliderExtractionError::MissingColliderGeometry,
        ),
        step(nodes, geometry, node as int) == acknowledged(nodes, node as int),
{
    count_tells_children(nodes, node as int, nodes.len() as int);
    first_child_is_oldest(nodes, node as int, 0);
}

/// No name counts as just assigned.
pub open spec fn all_seen<S>(nodes: Seq<NodeView<S>>) -> bool {
    forall|i: int| 0 <= i < nodes.len() ==> !(#[trigger] nodes[i]).newly_named
}

/// After the extractor has passed the first `upto` nodes, their names count
/// as seen, and the scene has as many nodes as before.
pub proof fn pass_sees_names<S>(nodes: Seq<NodeView<S>>, geometry: Seq<Option<S>>, upto: int)
    requires
        0 <= upto <= nodes.len(),
    ensures
        run_upto(nodes, geometry, upto).len() == nodes.len(),
        forall|i: int|
            0 <= i < upto ==> !(#[trigger] run_upto(nodes, geometry, upto)[i]).newly_named,
    decreases upto,
{
    if upto > 0 {
        pass_sees_names(nodes, geometry, upto - 1);
        let earlier = run_upto(nodes, geometry, upto - 1);
        let now = run_upto(nodes, geometry, upto);
        assert(now == step(earlier, geometry, upto - 1));
        assert forall|i: int| 0 <= i < upto implies !(#[trigger] now[i]).newly_named by {
            if i < upto - 1 {
                assert(!earlier[i].newly_named);
            }
        }
    }
}

/// Where no name counts as just assigned, a pass changes nothing and
/// reports nothing.
pub proof fn idle_pass<S>(nodes: Seq<NodeView<S>>, geometry: Seq<Option<S>>, upto: int)
    requires
        all_seen(nodes),
        0 <= upto <= nodes.len(),
    ensures
        run_upto(nodes, geometry, upto) == nodes,
        reports_upto(nodes, geometry, upto) == Seq::<ExtractionReport>::empty(),
    decreases upto,
{
    if upto > 0 {
        idle_pass(nodes, geometry, upto - 1);
        assert(!nodes[upto - 1].newly_named);
        assert(acknowledged(nodes, upto - 1) =~= nodes);
    }
}

/// A second pass of the extractor is a no-op: after one pass over a scene,
/// another pass, with whatever geometry, leaves the scene as it is and
/// reports nothing.
pub proof fn second_pass_is_idle<S>(nodes: Seq<NodeView<S>>, geometry: Seq<Option<S>>, later: Seq<Option<S>>)
    ensures
        all_seen(run(nodes, geometry)),
        run(run(nodes, geometry), later) == run(nodes, geometry),
        reports(run(nodes, geometry), later) == Seq::<ExtractionReport>::empty(),
{
    pass_sees_names(nodes, geometry, nodes.len() as int);
    let once = run(nodes, geometry);
    idle_pass(once, later, once.len() as int);
}

} // verus!
