use bevy::app::App;
use bevy::math::Vec3;
use bevy::render::mesh::{Indices, Mesh, PrimitiveTopology};
use bevy::transform::TransformBundle;
use bevy::MinimalPlugins;
use navmesh_scene::collider::build_trimesh_collider;
use navmesh_scene::debug_lines::DebugSegment;
use navmesh_scene::frame::{draw_mesh_overlay, navigate, snapshot, Navigation};
use navmesh_scene::planner::{
    corridor_on_mesh, find_path, string_pull, PathfindingError, StringPullError,
};
use oxidized_navigation::tiles::NavMeshTiles;
use oxidized_navigation::{NavMesh, NavMeshAffector, NavMeshSettings, OxidizedNavigationPlugin};
use std::sync::{Arc, RwLock};
use std::time::{Duration, Instant};

fn settings() -> NavMeshSettings {
    NavMeshSettings {
        cell_width: 0.25,
        cell_height: 0.1,
        tile_width: 100,
        world_half_extents: 250.0,
        world_bottom_bound: -10.0,
        max_traversable_slope_radians: (40.0_f32 - 0.1).to_radians(),
        walkable_height: 20,
        walkable_radius: 2,
        step_height: 3,
        min_region_area: 100,
        merge_region_area: 500,
        max_contour_simplification_error: 0.5,
        max_edge_length: 80,
    }
}

/// A flat floor at height 0 that faces up, between the two corners.
fn floor(min_x: f32, min_z: f32, max_x: f32, max_z: f32) -> Mesh {
    let mut mesh = Mesh::new(PrimitiveTopology::TriangleList);
    mesh.insert_attribute(
        Mesh::ATTRIBUTE_POSITION,
        vec![[min_x, 0.0, min_z], [max_x, 0.0, min_z], [max_x, 0.0, max_z], [min_x, 0.0, max_z]],
    );
    mesh.set_indices(Some(Indices::U32(vec![0, 3, 2, 0, 2, 1])));
    mesh
}

/// Lets the mesh builder work on the floors until the mesh has a tile.
fn built_mesh(floors: Vec<Mesh>) -> Arc<RwLock<NavMeshTiles>> {
    let mut app = App::new();
    app.add_plugins(MinimalPlugins)
        .insert_resource(settings())
        .add_plugin(OxidizedNavigationPlugin::default());
    for mesh in floors {
        let collider = build_trimesh_collider(&mesh).unwrap();
        app.world.spawn((collider, TransformBundle::default(), NavMeshAffector::default()));
    }
    let mesh = app.world.resource::<NavMesh>().get();
    let started = Instant::now();
    while started.elapsed() < Duration::from_secs(15) {
        app.update();
        if !mesh.read().unwrap().get_tiles().is_empty() {
            return mesh;
        }
    }
    panic!("the mesh builder gave no tile");
}

#[test]
fn start_and_end_in_one_polygon_give_a_path_of_two_points() {
    let mesh = built_mesh(vec![floor(3.0, 3.0, 22.0, 22.0)]);
    let mesh = mesh.read().unwrap();
    let start = Vec3::new(12.0, 0.0, 8.0);
    let end = Vec3::new(12.5, 0.0, 8.1);
    let corridor = find_path(&mesh, &settings(), start, end, 5).unwrap();
    assert_eq!(corridor.len(), 1);
    assert!(corridor_on_mesh(&mesh, &corridor));
    let path = string_pull(&mesh, start, end, &corridor).unwrap();
    assert_eq!(path.len(), 2);
    assert!(path[0].distance(start) < 0.2);
    assert!(path[1].distance(end) < 0.2);
}

#[test]
fn island_without_a_shared_edge_is_unreachable() {
    let mesh = built_mesh(vec![floor(2.0, 5.0, 9.0, 20.0), floor(16.0, 5.0, 23.0, 20.0)]);
    let mesh = mesh.read().unwrap();
    let start = Vec3::new(5.0, 0.0, 12.0);
    let end = Vec3::new(20.0, 0.0, 12.0);
    assert_eq!(find_path(&mesh, &settings(), start, end, 5), Err(PathfindingError::Unreachable));
    assert_eq!(
        navigate(Some(&*mesh), &settings(), start, end, 5),
        Navigation::NoCorridor(PathfindingError::Unreachable)
    );
    assert!(find_path(&mesh, &settings(), start, Vec3::new(7.0, 0.0, 18.0), 5).is_ok());
    assert!(find_path(&mesh, &settings(), Vec3::new(18.0, 0.0, 7.0), end, 5).is_ok());
}

#[test]
fn position_off_the_mesh_is_found_within_the_search_radius_only() {
    let mesh = built_mesh(vec![floor(3.0, 3.0, 22.0, 22.0)]);
    let mesh = mesh.read().unwrap();
    let start = Vec3::new(12.0, 0.0, 12.0);
    let above = Vec3::new(15.0, 3.0, 15.0);
    assert!(find_path(&mesh, &settings(), start, above, 5).is_ok());
    // The tile of the floor ends at 25; the search reaches back into it from 26 with a radius
    // of 5 and not with a radius of 0.
    let beside = Vec3::new(26.0, 0.0, 12.0);
    assert!(find_path(&mesh, &settings(), start, beside, 5).is_ok());
    assert_eq!(
        find_path(&mesh, &settings(), start, beside, 0),
        Err(PathfindingError::NoNearbyPolygon)
    );
    assert_eq!(
        find_path(&mesh, &settings(), beside, start, 0),
        Err(PathfindingError::NoNearbyPolygon)
    );
    let far = Vec3::new(100.0, 0.0, 100.0);
    assert_eq!(find_path(&mesh, &settings(), start, far, 5), Err(PathfindingError::NoNearbyPolygon));
    assert_eq!(find_path(&mesh, &settings(), far, start, 5), Err(PathfindingError::NoNearbyPolygon));
}

#[test]
fn navigation_draws_legs_from_start_to_end() {
    let mesh = built_mesh(vec![floor(3.0, 3.0, 22.0, 22.0)]);
    let mesh = mesh.read().unwrap();
    let start = Vec3::new(5.0, 0.0, 5.0);
    let end = Vec3::new(20.0, 2.0, 19.0);
    let corridor = find_path(&mesh, &settings(), start, end, 5).unwrap();
    let waypoints = string_pull(&mesh, start, end, &corridor).unwrap();
    assert!(waypoints.len() >= 2);
    let lines = match navigate(Some(&*mesh), &settings(), start, end, 5) {
        Navigation::Path(lines) => lines,
        other => panic!("no path: {:?}", other),
    };
    assert_eq!(lines.len(), waypoints.len() + 1);
    assert_eq!(lines[0], DebugSegment::Leg { from: start, to: waypoints[0] });
    assert_eq!(
        lines[lines.len() - 1],
        DebugSegment::Leg { from: waypoints[waypoints.len() - 1], to: end }
    );
    for k in 1..waypoints.len() {
        assert_eq!(lines[k], DebugSegment::Leg { from: waypoints[k - 1], to: waypoints[k] });
    }
}

#[test]
fn corridor_with_a_polygon_beyond_its_tile_is_broken() {
    let mesh = built_mesh(vec![floor(3.0, 3.0, 22.0, 22.0)]);
    let mesh = mesh.read().unwrap();
    let start = Vec3::new(5.0, 0.0, 5.0);
    let end = Vec3::new(20.0, 0.0, 19.0);
    let mut corridor = find_path(&mesh, &settings(), start, end, 5).unwrap();
    assert!(corridor_on_mesh(&mesh, &corridor));
    corridor[0].polygon = 60000;
    assert!(!corridor_on_mesh(&mesh, &corridor));
    assert_eq!(string_pull(&mesh, start, end, &corridor), Err(StringPullError::BrokenCorridor));
}

#[test]
fn overlay_of_a_built_mesh_has_three_edges_for_each_polygon() {
    let mesh = built_mesh(vec![floor(3.0, 3.0, 22.0, 22.0)]);
    let mesh = mesh.read().unwrap();
    let copy = snapshot(&mesh);
    assert_eq!(copy.tile_count(), 1);
    let slot = copy.slot(0);
    assert_eq!((slot.x, slot.y), (10, 10));
    let polygons = slot.tile.polygon_count();
    let vertices = slot.tile.vertex_count();
    assert!(polygons >= 2);
    for p in 0..polygons {
        assert_eq!(slot.tile.polygon(p).len(), 3);
    }
    let lines = draw_mesh_overlay(Some(&*mesh));
    assert_eq!(lines.len(), 3 * polygons + vertices);
    let first = slot.tile.polygon(0);
    let points = slot.tile.vertex_list();
    assert_eq!(
        lines[2],
        DebugSegment::Edge { from: points[first[2] as usize], to: points[first[0] as usize] }
    );
    assert_eq!(lines[3 * polygons], DebugSegment::Marker { at: points[0] });
}

fn length(points: &[Vec3]) -> f32 {
    points.windows(2).map(|pair| pair[0].distance(pair[1])).sum()
}

#[test]
fn taut_path_is_no_longer_than_the_path_over_polygon_centres() {
    // Two floors that meet in a corner: the way from one end to the other bends.
    let mesh = built_mesh(vec![floor(3.0, 3.0, 22.0, 8.0), floor(17.0, 3.0, 22.0, 22.0)]);
    let mesh = mesh.read().unwrap();
    let start = Vec3::new(5.0, 0.0, 5.0);
    let end = Vec3::new(20.0, 0.0, 20.0);
    let corridor = find_path(&mesh, &settings(), start, end, 5).unwrap();
    assert!(corridor.len() >= 2);
    let taut = string_pull(&mesh, start, end, &corridor).unwrap();
    assert!(taut.len() >= 3);

    let copy = snapshot(&mesh);
    let mut centres = vec![taut[0]];
    for polygon in &corridor {
        let place = copy.find_tile(polygon.tile_x, polygon.tile_y).unwrap();
        let tile = &copy.slot(place).tile;
        let corners = tile.polygon(polygon.polygon as usize);
        let points = tile.vertex_list();
        let sum = corners.iter().fold(Vec3::ZERO, |sum, corner| sum + points[*corner as usize]);
        centres.push(sum / corners.len() as f32);
    }
    centres.push(taut[taut.len() - 1]);
    assert!(length(&taut) <= length(&centres));
    assert!(length(&taut) >= taut[0].distance(taut[taut.len() - 1]));
}

#[test]
fn snapshot_holds_every_tile_of_the_mesh_with_its_polygons() {
    // The floor reaches over the border at 25 into a second tile.
    let lock = built_mesh(vec![floor(3.0, 3.0, 40.0, 22.0)]);
    let started = Instant::now();
    while lock.read().unwrap().get_tiles().len() < 2 {
        assert!(started.elapsed() < Duration::from_secs(15));
        std::hint::spin_loop();
    }
    let mesh = lock.read().unwrap();
    let copy = snapshot(&mesh);
    assert_eq!(copy.tile_count(), mesh.get_tiles().len());
    copy.cells_are_distinct();
    copy.every_tile_in_range();
    for (cell, tile) in mesh.get_tiles().iter() {
        let place = copy.find_tile(cell.x, cell.y).unwrap();
        let held = &copy.slot(place).tile;
        assert_eq!(held.vertex_list(), &tile.vertices);
        assert_eq!(held.polygon_count(), tile.polygons.len());
        for (p, polygon) in tile.polygons.iter().enumerate() {
            assert_eq!(held.polygon(p), &polygon.indices.to_vec());
        }
    }
}

#[test]
fn start_and_end_at_one_point_give_one_waypoint() {
    let mesh = built_mesh(vec![floor(3.0, 3.0, 22.0, 22.0)]);
    let mesh = mesh.read().unwrap();
    let at = Vec3::new(12.0, 0.0, 8.0);
    let corridor = find_path(&mesh, &settings(), at, at, 5).unwrap();
    assert_eq!(corridor.len(), 1);
    let path = string_pull(&mesh, at, at, &corridor).unwrap();
    assert_eq!(path.len(), 1);
    match navigate(Some(&*mesh), &settings(), at, at, 5) {
        Navigation::Path(lines) => assert_eq!(
            lines,
            vec![
                DebugSegment::Leg { from: at, to: path[0] },
                DebugSegment::Leg { from: path[0], to: at },
            ]
        ),
        other => panic!("no path: {:?}", other),
    }
}
