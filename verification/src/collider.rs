//! Triangle-mesh collision shapes, built by the physics engine from the mesh
//! data of the renderer. The mesh is checked here before it is handed over:
//! the engine stops the program on a mesh without a triangle or with an
//! index that names no vertex.

use bevy::render::mesh::{Indices, Mesh, VertexAttributeValues};
use bevy_rapier3d::geometry::{Collider, ComputedColliderShape};
use vstd::prelude::*;

verus! {

/// The renderer's mesh data, `bevy::render::mesh::Mesh`.
#[verifier::external_type_specification]
#[verifier::external_body]
pub struct ExMesh(Mesh);

/// The physics engine's shape, `bevy_rapier3d::geometry::Collider`.
#[verifier::external_type_specification]
#[verifier::external_body]
pub struct ExCollider(Collider);

/// The index buffer that a mesh holds, 16-bit indices widened; `None` for a
/// mesh without one.
pub uninterp spec fn mesh_indices(mesh: Mesh) -> Option<Seq<u32>>;

/// The number of positions that a mesh holds as triples of coordinates;
/// `None` for a mesh without positions in that layout.
pub uninterp spec fn mesh_point_count(mesh: Mesh) -> Option<nat>;

/// The triangle-mesh collider that the physics engine builds from a mesh,
/// without convex decomposition.
pub uninterp spec fn trimesh_of(mesh: Mesh) -> Collider;

/// Why the collider of a node could not be taken.
#[derive(Clone, Copy, Debug, PartialEq, Eq, Structural)]
pub enum ColliderExtractionError {
    /// No child of the node holds mesh data.
    MissingColliderGeometry,
    /// The mesh data makes no triangle mesh.
    ColliderBuildError,
}

/// The number of whole triangles in an index buffer.
pub open spec fn triangle_count(indices: Seq<u32>) -> nat {
    indices.len() / 3
}

/// An index buffer describes a triangle mesh over `points` vertices: it holds
/// a triangle, and each corner of each triangle names a vertex. Indices
/// behind the last whole triangle do not count.
pub open spec fn triangles_sound(indices: Seq<u32>, points: nat) -> bool {
    &&& triangle_count(indices) >= 1
    &&& forall|k: int| 0 <= k < 3 * triangle_count(indices) ==> (#[trigger] indices[k]) < points
}

/// A mesh from which a triangle-mesh collider can be built: it has positions,
/// an index buffer, and the two describe a triangle mesh.
pub open spec fn mesh_buildable(mesh: Mesh) -> bool {
    match (mesh_indices(mesh), mesh_point_count(mesh)) {
        (Some(indices), Some(points)) => triangles_sound(indices, points),
        _ => false,
    }
}

/// Calls `Mesh::indices` and copies the buffer out, widening 16-bit indices
/// as the physics engine does. Trusted: the copy is what the mesh holds.
#[verifier::external_body]
fn read_indices(mesh: &Mesh) -> (indices: Option<Vec<u32>>)
    ensures
        indices is Some <==> mesh_indices(*mesh) is Some,
        indices matches Some(list) ==> mesh_indices(*mesh) == Some(list@),
{
    match mesh.indices() {
        Some(Indices::U16(list)) => Some(list.iter().map(|i| u32::from(*i)).collect()),
        Some(Indices::U32(list)) => Some(list.clone()),
        None => None,
    }
}

/// Calls `Mesh::attribute` for the position attribute and counts its entries.
/// Trusted: the count is that of the positions held as coordinate triples.
#[verifier::external_body]
fn point_count(mesh: &Mesh) -> (count: Option<usize>)
    ensures
        count is Some <==> mesh_point_count(*mesh) is Some,
        count matches Some(n) ==> mesh_point_count(*mesh) == Some(n as nat),
{
    match mesh.attribute(Mesh::ATTRIBUTE_POSITION) {
        Some(VertexAttributeValues::Float32x3(points)) => Some(points.len()),
        _ => None,
    }
}

/// Calls `Collider::from_bevy_mesh` for a triangle mesh, without convex
/// decomposition. Trusted: on a mesh with positions and an index buffer the
/// call gives a collider, which depends on the mesh alone and is only named
/// here. The call is only made where the buffer holds a triangle and every
/// corner names a position, since the engine panics otherwise.
#[verifier::external_body]
fn trimesh_from_mesh(mesh: &Mesh) -> (collider: Option<Collider>)
    requires
        mesh_buildable(*mesh),
    ensures
        collider == Some(trimesh_of(*mesh)),
{
    Collider::from_bevy_mesh(mesh, &ComputedColliderShape::TriMesh)
}

/// Tells whether an index buffer describes a triangle mesh over `points`
/// vertices.
pub fn check_triangles(indices: &Vec<u32>, points: usize) -> (sound: bool)
    ensures
        sound == triangles_sound(indices@, points as nat),
{
    let triangles: usize = indices.len() / 3;
    if triangles == 0 {
        return false;
    }
    let used: usize = 3 * triangles;
    let mut k: usize = 0;
    while k < used
        invariant
            k <= used,
            used == 3 * triangle_count(indices@),
            used <= indices@.len(),
            forall|j: int| 0 <= j < k ==> (#[trigger] indices@[j]) < points,
        decreases used - k,
    {
        if indices[k] as usize >= points {
            return false;
        }
        k += 1;
    }
    true
}

/// Builds the triangle-mesh collider of `mesh`, as the physics engine makes
/// it, or reports a build error for a mesh without positions, without an
/// index buffer, without a triangle or with a corner that names no position.
pub fn build_trimesh_collider(mesh: &Mesh) -> (built: Result<Collider, ColliderExtractionError>)
    ensures
        built is Ok <==> mesh_buildable(*mesh),
        built matches Ok(collider) ==> collider == trimesh_of(*mesh),
        built matches Err(e) ==> e == ColliderExtractionError::ColliderBuildError,
{
    let indices = match read_indices(mesh) {
        Some(list) => list,
        None => {
            return Err(ColliderExtractionError::ColliderBuildError);
        },
    };
    let points = match point_count(mesh) {
        Some(n) => n,
        None => {
            return Err(ColliderExtractionError::ColliderBuildError);
        },
    };
    if !check_triangles(&indices, points) {
        return Err(ColliderExtractionError::ColliderBuildError);
    }
    match trimesh_from_mesh(mesh) {
        Some(collider) => Ok(collider),
        None => Err(ColliderExtractionError::ColliderBuildError),
    }
}

} // verus!
