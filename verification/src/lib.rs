//! Collision-geometry ingestion, navigation queries and debug-line projection
//! for a scene graph whose walkable surface is a tiled navigation mesh.

pub mod naming;
pub mod navmesh;
pub mod debug_lines;
pub mod scene;
pub mod collider;
pub mod extractor;
pub mod planner;
pub mod frame;
