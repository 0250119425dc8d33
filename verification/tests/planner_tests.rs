use bevy::math::Vec3;
use navmesh_scene::debug_lines::DebugSegment;
use navmesh_scene::frame::{
    assemble, draw_mesh_overlay, navigate, route_overlay, snapshot, Navigation, RawTile,
};
use navmesh_scene::planner::{
    corridor_on_mesh, find_path, judge_corridor, judge_pull, string_pull, PathfindingError,
    PolygonRef, PullFailure, SearchFailure, StringPullError,
};
use oxidized_navigation::tiles::NavMeshTiles;
use oxidized_navigation::NavMeshSettings;

fn settings() -> NavMeshSettings {
    NavMeshSettings {
        cell_width: 0.25,
        cell_height: 0.1,
        tile_width: 100,
        world_half_extents: 250.0,
        world_bottom_bound: -10.0,
        max_traversable_slope_radians: (40.0_f32 - 0.1).to_radians(),
        walkable_height: 20,
        walkable_radius: 2,
        step_height: 3,
        min_region_area: 100,
        merge_region_area: 500,
        max_contour_simplification_error: 0.5,
        max_edge_length: 80,
    }
}

fn polygon(tile_x: u32, tile_y: u32, polygon: u16) -> PolygonRef {
    PolygonRef { tile_x, tile_y, polygon }
}

#[test]
fn corridor_that_ends_in_the_goal_is_a_path() {
    let corridor = vec![polygon(1, 1, 0), polygon(1, 1, 4), polygon(2, 1, 3)];
    assert_eq!(judge_corridor(Ok(corridor.clone()), Some(polygon(2, 1, 3))), Ok(corridor));
    let single = vec![polygon(0, 0, 0)];
    assert_eq!(judge_corridor(Ok(single.clone()), Some(polygon(0, 0, 0))), Ok(single));
}

#[test]
fn corridor_that_stops_short_is_unreachable() {
    let corridor = vec![polygon(1, 1, 0), polygon(1, 1, 4)];
    assert_eq!(
        judge_corridor(Ok(corridor.clone()), Some(polygon(1, 1, 5))),
        Err(PathfindingError::Unreachable)
    );
    assert_eq!(
        judge_corridor(Ok(corridor.clone()), Some(polygon(1, 2, 4))),
        Err(PathfindingError::Unreachable)
    );
    assert_eq!(
        judge_corridor(Ok(corridor), Some(polygon(2, 1, 4))),
        Err(PathfindingError::Unreachable)
    );
    assert_eq!(
        judge_corridor(Ok(vec![]), Some(polygon(0, 0, 0))),
        Err(PathfindingError::Unreachable)
    );
}

#[test]
fn search_without_a_polygon_nearby_is_reported_so() {
    let goal = Some(polygon(0, 0, 0));
    for failure in
        [SearchFailure::MeshUnavailable, SearchFailure::NoStartPolygon, SearchFailure::NoEndPolygon]
    {
        assert_eq!(judge_corridor(Err(failure), goal), Err(PathfindingError::NoNearbyPolygon));
        assert_eq!(judge_corridor(Err(failure), None), Err(PathfindingError::NoNearbyPolygon));
    }
    assert_eq!(
        judge_corridor(Ok(vec![polygon(0, 0, 0)]), None),
        Err(PathfindingError::NoNearbyPolygon)
    );
}

#[test]
fn pulled_path_is_handed_on_unchanged() {
    assert_eq!(judge_pull(Ok(vec![3, 1, 2])), Ok(vec![3, 1, 2]));
    assert_eq!(judge_pull::<u8>(Ok(vec![])), Ok(vec![]));
}

#[test]
fn pull_failures_are_told_apart() {
    assert_eq!(judge_pull::<u8>(Err(PullFailure::PathEmpty)), Err(StringPullError::DegenerateCorridor));
    for failure in [
        PullFailure::MissingStartTile,
        PullFailure::MissingEndTile,
        PullFailure::MissingNodeTile,
        PullFailure::NoLinkBetweenPathPoints,
    ] {
        assert_eq!(judge_pull::<u8>(Err(failure)), Err(StringPullError::BrokenCorridor));
    }
}

#[test]
fn mesh_without_tiles_has_no_polygon_nearby() {
    let mesh = NavMeshTiles::default();
    assert_eq!(
        find_path(&mesh, &settings(), Vec3::ZERO, Vec3::new(3.0, 0.0, 3.0), 5),
        Err(PathfindingError::NoNearbyPolygon)
    );
}

#[test]
fn empty_corridor_is_degenerate() {
    let mesh = NavMeshTiles::default();
    assert_eq!(
        string_pull(&mesh, Vec3::ZERO, Vec3::X, &vec![]),
        Err(StringPullError::DegenerateCorridor)
    );
}

#[test]
fn corridor_over_a_missing_tile_is_broken() {
    let mesh = NavMeshTiles::default();
    let corridor = vec![polygon(10, 10, 0), polygon(10, 10, 1)];
    assert!(corridor_on_mesh(&mesh, &corridor));
    assert_eq!(string_pull(&mesh, Vec3::ZERO, Vec3::X, &corridor), Err(StringPullError::BrokenCorridor));
}

#[test]
fn navigation_without_a_mesh_is_skipped() {
    assert_eq!(navigate(None, &settings(), Vec3::ZERO, Vec3::X, 5), Navigation::Skipped);
}

#[test]
fn navigation_over_an_empty_mesh_draws_nothing() {
    let mesh = NavMeshTiles::default();
    assert_eq!(
        navigate(Some(&mesh), &settings(), Vec3::ZERO, Vec3::X, 5),
        Navigation::NoCorridor(PathfindingError::NoNearbyPolygon)
    );
}

#[test]
fn pulled_path_becomes_legs_from_start_to_end() {
    let a = Vec3::new(1.0, 0.0, 0.0);
    let b = Vec3::new(1.0, 0.0, 2.0);
    assert_eq!(
        route_overlay(Vec3::ZERO, Vec3::ONE, Ok(vec![a, b])),
        Navigation::Path(vec![
            DebugSegment::Leg { from: Vec3::ZERO, to: a },
            DebugSegment::Leg { from: a, to: b },
            DebugSegment::Leg { from: b, to: Vec3::ONE },
        ])
    );
    assert_eq!(
        route_overlay(1, 2, Ok(vec![])),
        Navigation::Path(vec![DebugSegment::Leg { from: 1, to: 2 }])
    );
}

#[test]
fn pull_error_draws_nothing() {
    assert_eq!(
        route_overlay(1, 2, Err(StringPullError::DegenerateCorridor)),
        Navigation::NoPath(StringPullError::DegenerateCorridor)
    );
    assert_eq!(
        route_overlay(1, 2, Err(StringPullError::BrokenCorridor)),
        Navigation::NoPath(StringPullError::BrokenCorridor)
    );
}

#[test]
fn assembled_mesh_leaves_unsound_tiles_out() {
    let tiles = vec![
        RawTile { x: 0, y: 0, vertices: vec![1u8, 2, 3], polygons: vec![vec![0, 1, 2]] },
        RawTile { x: 1, y: 0, vertices: vec![4u8, 5, 6], polygons: vec![vec![0, 1, 3]] },
        RawTile { x: 2, y: 0, vertices: vec![7u8], polygons: vec![] },
        RawTile { x: 0, y: 0, vertices: vec![8u8, 9], polygons: vec![vec![1, 0]] },
    ];
    let mesh = assemble(tiles);
    assert_eq!(mesh.tile_count(), 2);
    assert_eq!(mesh.find_tile(0, 0), Some(0));
    assert_eq!(mesh.find_tile(1, 0), None);
    assert_eq!(mesh.find_tile(2, 0), Some(1));
    assert_eq!(mesh.slot(0).tile.vertex_list(), &vec![8u8, 9]);
    assert_eq!(mesh.slot(1).tile.vertex_list(), &vec![7u8]);
}

#[test]
fn snapshot_of_an_empty_mesh_is_empty() {
    let mesh = NavMeshTiles::default();
    assert_eq!(snapshot(&mesh).tile_count(), 0);
    assert!(draw_mesh_overlay(Some(&mesh)).is_empty());
    assert!(draw_mesh_overlay(None).is_empty());
}
