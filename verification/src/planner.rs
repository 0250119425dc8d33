//! The path planner: a corridor of polygons from a start to an end position
//! over the navigation mesh of the mesh builder, and the taut path through
//! that corridor. The search and the string pulling are the builder's own;
//! what is decided here is which of their answers counts as a path.

use bevy::math::{UVec2, Vec3};
use oxidized_navigation::query::{FindPathError, StringPullingError};
use oxidized_navigation::tiles::NavMeshTiles;
use oxidized_navigation::NavMeshSettings;
use vstd::prelude::*;

verus! {

/// A position in the world, `bevy::math::Vec3`.
#[verifier::external_type_specification]
#[verifier::external_body]
pub struct ExVec3(Vec3);

/// The tiles of the mesh builder, `oxidized_navigation::tiles::NavMeshTiles`.
#[verifier::external_type_specification]
#[verifier::external_body]
pub struct ExNavMeshTiles(NavMeshTiles);

/// The settings of the mesh builder, `oxidized_navigation::NavMeshSettings`.
#[verifier::external_type_specification]
#[verifier::external_body]
pub struct ExNavMeshSettings(NavMeshSettings);

/// A polygon of the navigation mesh: the cell of its tile and its place in
/// the tile.
#[derive(Clone, Copy, Debug, PartialEq, Eq, Structural)]
pub struct PolygonRef {
    pub tile_x: u32,
    pub tile_y: u32,
    pub polygon: u16,
}

/// Why no corridor was found.
#[derive(Clone, Copy, Debug, PartialEq, Eq, Structural)]
pub enum PathfindingError {
    /// No polygon lies within the search radius of the start or of the end.
    NoNearbyPolygon,
    /// No chain of polygons that share edges leads from the start polygon to
    /// the end polygon.
    Unreachable,
}

/// Why a corridor gave no path.
#[derive(Clone, Copy, Debug, PartialEq, Eq, Structural)]
pub enum StringPullError {
    /// The corridor is empty.
    DegenerateCorridor,
    /// The corridor names a polygon that the mesh does not hold, or two
    /// polygons in a row that share no edge.
    BrokenCorridor,
}

/// What the builder's search says when it gives no corridor.
#[derive(Clone, Copy, Debug, PartialEq, Eq, Structural)]
pub enum SearchFailure {
    MeshUnavailable,
    NoStartPolygon,
    NoEndPolygon,
}

/// What the builder's string pulling says when it gives no path.
#[derive(Clone, Copy, Debug, PartialEq, Eq, Structural)]
pub enum PullFailure {
    PathEmpty,
    MissingStartTile,
    MissingEndTile,
    MissingNodeTile,
    NoLinkBetweenPathPoints,
}

/// What the builder's mesh holds: for each cell that it covers, the
/// vertices of the tile there and, polygon by polygon, the indices of the
/// corners.
pub uninterp spec fn tile_shapes(mesh: NavMeshTiles) -> Map<(u32, u32), (Seq<Vec3>, Seq<Seq<u32>>)>;

/// The answer of the builder's search for a corridor from `start` to `end`,
/// with areas of every kind at the same cost.
pub uninterp spec fn searched(
    mesh: NavMeshTiles,
    settings: NavMeshSettings,
    start: Vec3,
    end: Vec3,
    radius: u16,
) -> Result<Seq<PolygonRef>, SearchFailure>;

/// The polygon that the builder finds nearest to `center`, among the tiles
/// within `radius` of it.
pub uninterp spec fn nearest(
    mesh: NavMeshTiles,
    settings: NavMeshSettings,
    center: Vec3,
    radius: u16,
) -> Option<PolygonRef>;

/// The answer of the builder's string pulling through a corridor.
pub uninterp spec fn pulled_path(
    mesh: NavMeshTiles,
    start: Vec3,
    end: Vec3,
    corridor: Seq<PolygonRef>,
) -> Result<Seq<Vec3>, PullFailure>;

/// How the answer of a search follows from the polygons nearest to the
/// start and to the end: it fails for want of a start polygon where none is
/// nearest to the start, for want of an end polygon where one is nearest to
/// the start and none to the end, and is a corridor otherwise, of at least
/// one polygon, and of that polygon alone where the two are the same.
pub open spec fn search_follows(
    found: Result<Vec<PolygonRef>, SearchFailure>,
    near_start: Option<PolygonRef>,
    near_end: Option<PolygonRef>,
) -> bool {
    match (near_start, near_end) {
        (None, _) => found == Err::<Vec<PolygonRef>, SearchFailure>(SearchFailure::NoStartPolygon),
        (Some(_), None) => found == Err::<Vec<PolygonRef>, SearchFailure>(
            SearchFailure::NoEndPolygon,
        ),
        (Some(first), Some(last)) => found matches Ok(corridor) && corridor@.len() > 0 && (first
            == last ==> corridor@ == seq![first]),
    }
}

/// A result says what its model says: the same list, or the same error.
pub open spec fn same_result<T, E>(got: Result<Vec<T>, E>, model: Result<Seq<T>, E>) -> bool {
    match model {
        Ok(list) => got matches Ok(v) && v@ == list,
        Err(e) => got == Err::<Vec<T>, E>(e),
    }
}

/// For each cell that the builder's mesh covers, the number of polygons of
/// the tile there.
pub open spec fn tile_polygons(mesh: NavMeshTiles) -> Map<(u32, u32), nat> {
    Map::new(
        |cell: (u32, u32)| tile_shapes(mesh).contains_key(cell),
        |cell: (u32, u32)| tile_shapes(mesh)[cell].1.len(),
    )
}

/// No tile holds a polygon.
pub open spec fn without_polygons(sizes: Map<(u32, u32), nat>) -> bool {
    forall|cell: (u32, u32)| #[trigger] sizes.contains_key(cell) ==> sizes[cell] == 0
}

/// The mesh holds the tile of the polygon, and the polygon is one of it.
pub open spec fn on_mesh(sizes: Map<(u32, u32), nat>, polygon: PolygonRef) -> bool {
    &&& sizes.contains_key((polygon.tile_x, polygon.tile_y))
    &&& polygon.polygon < sizes[(polygon.tile_x, polygon.tile_y)]
}

/// Each polygon of the corridor whose tile the mesh holds is a polygon of
/// that tile.
pub open spec fn corridor_fits(sizes: Map<(u32, u32), nat>, corridor: Seq<PolygonRef>) -> bool {
    forall|k: int|
        0 <= k < corridor.len() ==> fits(sizes, #[trigger] corridor[k])
}

/// The polygon is one of its tile, or the mesh has no tile there.
pub open spec fn fits(sizes: Map<(u32, u32), nat>, polygon: PolygonRef) -> bool {
    sizes.contains_key((polygon.tile_x, polygon.tile_y)) ==> polygon.polygon < sizes[(
        polygon.tile_x,
        polygon.tile_y,
    )]
}

/// Calls `oxidized_navigation::query::find_path` with the search radius in
/// whole world units and every area at cost 1. Trusted: the answer depends
/// on the arguments alone and is only named here; beside the name stands
/// what the first lines of the search show. The search fails for want of a
/// start polygon where none is nearest to the start, for want of an end
/// polygon where one is nearest to the start and none to the end, and gives
/// a corridor otherwise, of at least one polygon; where the same polygon is
/// nearest to both, the corridor is that polygon alone. On a mesh without a
/// polygon the search gives no corridor. The search follows the links
/// between polygons without a check; the builder alone can make or change a
/// mesh, and it keeps each link within the tiles that it holds.
#[verifier::external_body]
fn search_corridor(
    mesh: &NavMeshTiles,
    settings: &NavMeshSettings,
    start: Vec3,
    end: Vec3,
    search_radius: u16,
) -> (found: Result<Vec<PolygonRef>, SearchFailure>)
    ensures
        same_result(found, searched(*mesh, *settings, start, end, search_radius)),
        search_follows(
            found,
            nearest(*mesh, *settings, start, search_radius),
            nearest(*mesh, *settings, end, search_radius),
        ),
        without_polygons(tile_polygons(*mesh)) ==> found is Err,
{
    let radius = Some(search_radius.into());
    match oxidized_navigation::query::find_path(mesh, settings, start, end, radius, None) {
        Ok(path) => Ok(
            path.into_iter().map(
                |(tile, polygon)| PolygonRef { tile_x: tile.x, tile_y: tile.y, polygon },
            ).collect(),
        ),
        Err(FindPathError::NavMeshUnavailable) => Err(SearchFailure::MeshUnavailable),
        Err(FindPathError::NoValidStartPolygon) => Err(SearchFailure::NoStartPolygon),
        Err(FindPathError::NoValidEndPolygon) => Err(SearchFailure::NoEndPolygon),
    }
}

/// Calls `NavMeshTiles::find_closest_polygon_in_box` and keeps the polygon
/// that it names. Trusted: the answer depends on the arguments alone and is
/// only named here; a polygon that is named is one of a tile that the mesh
/// holds.
#[verifier::external_body]
fn closest_polygon(
    mesh: &NavMeshTiles,
    settings: &NavMeshSettings,
    center: Vec3,
    search_radius: u16,
) -> (polygon: Option<PolygonRef>)
    ensures
        polygon == nearest(*mesh, *settings, center, search_radius),
        polygon matches Some(p) ==> on_mesh(tile_polygons(*mesh), p),
{
    mesh.find_closest_polygon_in_box(settings, center, search_radius.into()).map(
        |(tile, polygon, _)| PolygonRef { tile_x: tile.x, tile_y: tile.y, polygon },
    )
}

/// Calls `NavMeshTiles::get_tiles` and looks up the tile at `(x, y)`.
/// Trusted: the number is that of the tile's polygons, and there is none
/// where the mesh has no tile.
#[verifier::external_body]
fn polygon_count(mesh: &NavMeshTiles, x: u32, y: u32) -> (count: Option<usize>)
    ensures
        count is Some <==> tile_polygons(*mesh).contains_key((x, y)),
        count matches Some(n) ==> tile_polygons(*mesh)[(x, y)] == n,
{
    mesh.get_tiles().get(&UVec2::new(x, y)).map(|tile| tile.polygons.len())
}

/// How the answer of the string pulling follows from the corridor: only an
/// empty corridor is refused as empty; a path starts with a point; and a
/// corridor of one polygon of the mesh gives a path of its two end points
/// and nothing between them, or of one point where the two are the same.
pub open spec fn pull_follows(
    pulled: Result<Vec<Vec3>, PullFailure>,
    sizes: Map<(u32, u32), nat>,
    corridor: Seq<PolygonRef>,
) -> bool {
    &&& corridor.len() > 0 ==> pulled != Err::<Vec<Vec3>, PullFailure>(PullFailure::PathEmpty)
    &&& pulled matches Ok(points) ==> points@.len() >= 1
    &&& corridor.len() == 1 && on_mesh(sizes, corridor[0]) ==> (pulled matches Ok(points)
        && points@.len() <= 2)
}

/// Calls `oxidized_navigation::query::perform_string_pulling_on_path`.
/// It is only made with a corridor whose polygons the mesh holds, since the
/// builder looks each of them up without a check. Trusted: the answer
/// depends on the arguments alone and is only named here; beside the name
/// stands what the first and the last lines of the string pulling show.
#[verifier::external_body]
fn pull_corridor(mesh: &NavMeshTiles, start: Vec3, end: Vec3, corridor: &Vec<PolygonRef>) -> (pulled:
    Result<Vec<Vec3>, PullFailure>)
    requires
        corridor_fits(tile_polygons(*mesh), corridor@),
    ensures
        same_result(pulled, pulled_path(*mesh, start, end, corridor@)),
        pull_follows(pulled, tile_polygons(*mesh), corridor@),
{
    let path: Vec<(UVec2, u16)> = corridor.iter().map(
        |p| (UVec2::new(p.tile_x, p.tile_y), p.polygon),
    ).collect();
    match oxidized_navigation::query::perform_string_pulling_on_path(mesh, start, end, &path) {
        Ok(points) => Ok(points),
        Err(StringPullingError::PathEmpty) => Err(PullFailure::PathEmpty),
        Err(StringPullingError::MissingStartTile) => Err(PullFailure::MissingStartTile),
        Err(StringPullingError::MissingEndTile) => Err(PullFailure::MissingEndTile),
        Err(StringPullingError::MissingNodeTile) => Err(PullFailure::MissingNodeTile),
        Err(StringPullingError::NoLinkBetweenPathPoints) => Err(
            PullFailure::NoLinkBetweenPathPoints,
        ),
    }
}

/// The corridor that a search has found counts as a path where it ends in
/// the polygon nearest to the end position.
pub open spec fn reaches(corridor: Seq<PolygonRef>, goal: Option<PolygonRef>) -> bool {
    corridor.len() > 0 && goal == Some(corridor.last())
}

/// What the answer of a search counts as, given the polygon nearest to the
/// end position: no polygon nearby where the search failed or there is no
/// such polygon, the corridor where it ends in that polygon, and unreachable
/// where it stops short.
pub open spec fn judged(found: Result<Seq<PolygonRef>, SearchFailure>, goal: Option<PolygonRef>) -> Result<
    Seq<PolygonRef>,
    PathfindingError,
> {
    match found {
        Ok(corridor) => if goal is None {
            Err(PathfindingError::NoNearbyPolygon)
        } else if reaches(corridor, goal) {
            Ok(corridor)
        } else {
            Err(PathfindingError::Unreachable)
        },
        Err(_) => Err(PathfindingError::NoNearbyPolygon),
    }
}

/// The corridor from `start` to `end`: the answer of the builder's search,
/// judged by the polygon nearest to `end`.
pub open spec fn planned(
    mesh: NavMeshTiles,
    settings: NavMeshSettings,
    start: Vec3,
    end: Vec3,
    radius: u16,
) -> Result<Seq<PolygonRef>, PathfindingError> {
    judged(searched(mesh, settings, start, end, radius), nearest(mesh, settings, end, radius))
}

/// The path through a corridor: none through an empty corridor, which is
/// degenerate, nor through one with a polygon beyond its tile, which is
/// broken; else what the builder's string pulling gives, any refusal of it
/// counting as a broken corridor.
pub open spec fn strung(mesh: NavMeshTiles, start: Vec3, end: Vec3, corridor: Seq<PolygonRef>) -> Result<
    Seq<Vec3>,
    StringPullError,
> {
    if corridor.len() == 0 {
        Err(StringPullError::DegenerateCorridor)
    } else if !corridor_fits(tile_polygons(mesh), corridor) {
        Err(StringPullError::BrokenCorridor)
    } else {
        match pulled_path(mesh, start, end, corridor) {
            Ok(waypoints) => Ok(waypoints),
            Err(_) => Err(StringPullError::BrokenCorridor),
        }
    }
}

/// Judges the answer of the search. A search that found no polygon near the
/// start or the end gives `NoNearbyPolygon`, and so does a missing goal.
/// The search hands out the corridor towards the polygon nearest to the end
/// when it cannot reach the end polygon itself: such a corridor gives
/// `Unreachable`.
pub fn judge_corridor(found: Result<Vec<PolygonRef>, SearchFailure>, goal: Option<PolygonRef>) -> (path:
    Result<Vec<PolygonRef>, PathfindingError>)
    ensures
        match found {
            Ok(corridor) => if goal is None {
                path == Err::<Vec<PolygonRef>, PathfindingError>(
                    PathfindingError::NoNearbyPolygon,
                )
            } else if reaches(corridor@, goal) {
                path == Ok::<Vec<PolygonRef>, PathfindingError>(corridor)
            } else {
                path == Err::<Vec<PolygonRef>, PathfindingError>(PathfindingError::Unreachable)
            },
            Err(_) => path == Err::<Vec<PolygonRef>, PathfindingError>(
                PathfindingError::NoNearbyPolygon,
            ),
        },
{
    let corridor = match found {
        Ok(corridor) => corridor,
        Err(_) => {
            return Err(PathfindingError::NoNearbyPolygon);
        },
    };
    let goal = match goal {
        Some(goal) => goal,
        None => {
            return Err(PathfindingError::NoNearbyPolygon);
        },
    };
    if corridor.len() == 0 {
        return Err(PathfindingError::Unreachable);
    }
    let last = corridor[corridor.len() - 1];
    if last.tile_x == goal.tile_x && last.tile_y == goal.tile_y && last.polygon == goal.polygon {
        Ok(corridor)
    } else {
        Err(PathfindingError::Unreachable)
    }
}

/// Finds the corridor of polygons from `start` to `end`. A position that
/// lies off the mesh is taken to the nearest polygon among the tiles within
/// `search_radius` world units of it. There is no polygon nearby exactly
/// when none is nearest to the start or none to the end. Where the same
/// polygon is nearest to both, the corridor is that polygon alone. A
/// corridor that is handed out is not empty and ends in the polygon nearest
/// to `end`; a search that stops short of it counts as unreachable.
pub fn find_path(
    mesh: &NavMeshTiles,
    settings: &NavMeshSettings,
    start: Vec3,
    end: Vec3,
    search_radius: u16,
) -> (path: Result<Vec<PolygonRef>, PathfindingError>)
    ensures
        same_result(path, planned(*mesh, *settings, start, end, search_radius)),
        path == Err::<Vec<PolygonRef>, PathfindingError>(PathfindingError::NoNearbyPolygon) <==> (
        nearest(*mesh, *settings, start, search_radius) is None || nearest(
            *mesh,
            *settings,
            end,
            search_radius,
        ) is None),
        nearest(*mesh, *settings, start, search_radius) is Some && nearest(
            *mesh,
            *settings,
            start,
            search_radius,
        ) == nearest(*mesh, *settings, end, search_radius) ==> (path matches Ok(corridor)
            && corridor@ == seq![nearest(*mesh, *settings, start, search_radius)->Some_0]),
        path matches Ok(corridor) ==> corridor@.len() > 0 && Some(corridor@.last()) == nearest(
            *mesh,
            *settings,
            end,
            search_radius,
        ) && on_mesh(tile_polygons(*mesh), corridor@.last()),
        without_polygons(tile_polygons(*mesh)) ==> path == Err::<
            Vec<PolygonRef>,
            PathfindingError,
        >(PathfindingError::NoNearbyPolygon),
{
    let found = search_corridor(mesh, settings, start, end, search_radius);
    let goal = closest_polygon(mesh, settings, end, search_radius);
    judge_corridor(found, goal)
}

/// Tells whether the mesh holds each polygon of the corridor whose tile it
/// holds.
pub fn corridor_on_mesh(mesh: &NavMeshTiles, corridor: &Vec<PolygonRef>) -> (sound: bool)
    ensures
        sound == corridor_fits(tile_polygons(*mesh), corridor@),
{
    let mut k: usize = 0;
    while k < corridor.len()
        invariant
            k <= corridor@.len(),
            forall|j: int| 0 <= j < k ==> fits(tile_polygons(*mesh), #[trigger] corridor@[j]),
        decreases corridor.len() - k,
    {
        let polygon = corridor[k];
        match polygon_count(mesh, polygon.tile_x, polygon.tile_y) {
            Some(count) => {
                if polygon.polygon as usize >= count {
                    assert(!fits(tile_polygons(*mesh), corridor@[k as int]));
                    return false;
                }
            },
            None => {},
        }
        k += 1;
    }
    true
}

/// Judges the answer of the string pulling: the path as it came, or the
/// reason in this library's terms.
pub fn judge_pull<P>(pulled: Result<Vec<P>, PullFailure>) -> (path: Result<Vec<P>, StringPullError>)
    ensures
        match pulled {
            Ok(points) => path == Ok::<Vec<P>, StringPullError>(points),
            Err(PullFailure::PathEmpty) => path == Err::<Vec<P>, StringPullError>(
                StringPullError::DegenerateCorridor,
            ),
            Err(_) => path == Err::<Vec<P>, StringPullError>(StringPullError::BrokenCorridor),
        },
{
    match pulled {
        Ok(points) => Ok(points),
        Err(PullFailure::PathEmpty) => Err(StringPullError::DegenerateCorridor),
        Err(_) => Err(StringPullError::BrokenCorridor),
    }
}

/// Pulls the string through a corridor: the waypoints of the taut path from
/// `start` to `end` inside it, as the builder's string pulling gives them.
/// An empty corridor is degenerate; one that names a polygon which its tile
/// does not hold, or that the builder refuses, is broken. A corridor of one
/// polygon of the mesh gives the two end points with nothing between them.
pub fn string_pull(mesh: &NavMeshTiles, start: Vec3, end: Vec3, corridor: &Vec<PolygonRef>) -> (path:
    Result<Vec<Vec3>, StringPullError>)
    ensures
        same_result(path, strung(*mesh, start, end, corridor@)),
        path matches Ok(points) ==> points@.len() >= 1,
        corridor@.len() == 1 && on_mesh(tile_polygons(*mesh), corridor@[0]) ==> (path matches Ok(
            points,
        ) && points@.len() <= 2),
        path == Err::<Vec<Vec3>, StringPullError>(StringPullError::DegenerateCorridor)
            <==> corridor@.len() == 0,
        corridor@.len() > 0 && !corridor_fits(tile_polygons(*mesh), corridor@) ==> path
            == Err::<Vec<Vec3>, StringPullError>(StringPullError::BrokenCorridor),
{
    if corridor.len() == 0 {
        return Err(StringPullError::DegenerateCorridor);
    }
    if !corridor_on_mesh(mesh, corridor) {
        return Err(StringPullError::BrokenCorridor);
    }
    match judge_pull(pull_corridor(mesh, start, end, corridor)) {
        Ok(points) => Ok(points),
        Err(_) => Err(StringPullError::BrokenCorridor),
    }
}

} // verus!
