//! The passes that run once per frame on the builder's navigation mesh: the
//! path from a fixed start to the moving end, as overlay lines, and the
//! overlay of the mesh itself. Each pass is a function of what it is given
//! and keeps nothing for the next frame.

use bevy::math::Vec3;
use oxidized_navigation::tiles::NavMeshTiles;
use oxidized_navigation::NavMeshSettings;
use vstd::prelude::*;
use crate::debug_lines::{draw_nav_mesh, draw_path, mesh_lines, path_legs, DebugSegment};
use crate::navmesh::{covers, loops_in_range, loops_of, NavMesh, NavTile, TileSlot};
use crate::planner::{
    find_path, nearest, planned, string_pull, strung, tile_shapes, PathfindingError,
    StringPullError,
};

verus! {

/// How the navigation pass of one frame ended.
#[derive(Debug, PartialEq)]
pub enum Navigation<P> {
    /// The mesh could not be read this frame; nothing was done.
    Skipped,
    /// No corridor leads from the start to the end.
    NoCorridor(PathfindingError),
    /// The corridor gave no path.
    NoPath(StringPullError),
    /// The legs of the path, to be drawn.
    Path(Vec<DebugSegment<P>>),
}

/// Turns the answer of the string pulling into the outcome of the frame:
/// the legs from `start` over the waypoints to `end`, or the error, with
/// nothing to draw.
pub fn route_overlay<P: Copy>(start: P, end: P, pulled: Result<Vec<P>, StringPullError>) -> (outcome:
    Navigation<P>)
    ensures
        match pulled {
            Ok(waypoints) => outcome matches Navigation::Path(lines) && lines@ == path_legs(
                start,
                waypoints@,
                end,
            ),
            Err(e) => outcome == Navigation::<P>::NoPath(e),
        },
{
    match pulled {
        Ok(waypoints) => Navigation::Path(draw_path(start, &waypoints, end)),
        Err(e) => Navigation::NoPath(e),
    }
}

/// The navigation pass: plans the path from `start` to `end` over the mesh
/// and hands out its legs. Without a mesh to read the pass is skipped. Where
/// no corridor is found, or the corridor gives no path, the pass ends with
/// that error and nothing to draw; the next frame asks anew. The corridor
/// that is pulled is never empty, so it is never degenerate. Where the same
/// polygon is nearest to the start and to the end, the path has no waypoint
/// but the two end points on that polygon.
pub fn navigate(
    mesh: Option<&NavMeshTiles>,
    settings: &NavMeshSettings,
    start: Vec3,
    end: Vec3,
    search_radius: u16,
) -> (outcome: Navigation<Vec3>)
    ensures
        outcome is Skipped <==> mesh is None,
        mesh matches Some(m) ==> match planned(*m, *settings, start, end, search_radius) {
            Err(e) => outcome == Navigation::<Vec3>::NoCorridor(e),
            Ok(corridor) => match strung(*m, start, end, corridor) {
                Ok(waypoints) => outcome matches Navigation::Path(lines) && lines@ == path_legs(
                    start,
                    waypoints,
                    end,
                ),
                Err(e) => outcome == Navigation::<Vec3>::NoPath(e),
            },
        },
        outcome != Navigation::<Vec3>::NoPath(StringPullError::DegenerateCorridor),
        mesh matches Some(m) && nearest(*m, *settings, start, search_radius) is Some && nearest(
            *m,
            *settings,
            start,
            search_radius,
        ) == nearest(*m, *settings, end, search_radius) ==> (outcome matches Navigation::Path(
            lines,
        ) && 2 <= lines@.len() <= 3),
{
    let mesh = match mesh {
        Some(mesh) => mesh,
        None => {
            return Navigation::Skipped;
        },
    };
    let corridor = match find_path(mesh, settings, start, end, search_radius) {
        Ok(corridor) => corridor,
        Err(e) => {
            return Navigation::NoCorridor(e);
        },
    };
    let pulled = string_pull(mesh, start, end, &corridor);
    route_overlay(start, end, pulled)
}

/// A tile as the builder holds it, not yet checked.
#[derive(Debug)]
pub struct RawTile<P> {
    pub x: u32,
    pub y: u32,
    pub vertices: Vec<P>,
    pub polygons: Vec<Vec<u32>>,
}

/// Calls `NavMeshTiles::get_tiles` and copies each tile out: its cell, its
/// vertices and the corner indices of its polygons. Trusted: each copy is
/// of the tile that the mesh holds at that cell, with the same vertices and
/// the same corner indices, and every cell of the mesh has its copy.
/// The order of the copies is that of a hash map, differs from run to run,
/// and nothing is claimed of it.
#[verifier::external_body]
fn copy_tiles(mesh: &NavMeshTiles) -> (tiles: Vec<RawTile<Vec3>>)
    ensures
        forall|j: int|
            0 <= j < tiles@.len() ==> tile_shapes(*mesh).contains_key(
                ((#[trigger] tiles@[j]).x, tiles@[j].y),
            ) && tile_shapes(*mesh)[(tiles@[j].x, tiles@[j].y)] == (
                tiles@[j].vertices@,
                loops_of(tiles@[j].polygons@),
            ),
        forall|x: u32, y: u32| #[trigger]
            tile_shapes(*mesh).contains_key((x, y)) ==> exists|j: int|
                0 <= j < tiles@.len() && (#[trigger] tiles@[j]).x == x && tiles@[j].y == y,
{
    mesh.get_tiles().iter().map(
        |(cell, tile)|
            RawTile {
                x: cell.x,
                y: cell.y,
                vertices: tile.vertices.clone(),
                polygons: tile.polygons.iter().map(|p| p.indices.to_vec()).collect(),
            },
    ).collect()
}

/// Every polygon of the unchecked tile names vertices of the tile.
pub open spec fn raw_sound<P>(raw: RawTile<P>) -> bool {
    loops_in_range(loops_of(raw.polygons@), raw.vertices@.len())
}

/// Tile `j` of the list goes into the mesh: it is sound, and no sound tile
/// behind it is for the same cell.
pub open spec fn stays<P>(tiles: Seq<RawTile<P>>, j: int) -> bool {
    &&& 0 <= j < tiles.len()
    &&& raw_sound(tiles[j])
    &&& forall|later: int|
        j < later < tiles.len() ==> !(#[trigger] raw_sound(tiles[later]) && tiles[later].x
            == tiles[j].x && tiles[later].y == tiles[j].y)
}

/// The slot holds the unchecked tile as it is, at its cell.
pub open spec fn holds_copy<P>(slot: TileSlot<P>, raw: RawTile<P>) -> bool {
    &&& slot.x == raw.x
    &&& slot.y == raw.y
    &&& slot.tile.vertices() == raw.vertices@
    &&& slot.tile.polygons() == loops_of(raw.polygons@)
}

/// The slot holds one of the tiles that stay, from place `from` on.
pub open spec fn came_from<P>(slot: TileSlot<P>, tiles: Seq<RawTile<P>>, from: int) -> bool {
    exists|j: int| from <= j && stays(tiles, j) && #[trigger] holds_copy(slot, tiles[j])
}

/// Some slot holds the unchecked tile.
pub open spec fn held<P>(slots: Seq<TileSlot<P>>, raw: RawTile<P>) -> bool {
    exists|i: int| 0 <= i < slots.len() && #[trigger] holds_copy(slots[i], raw)
}

/// Each slot holds a tile that stays, from place `from` of the list on.
pub open spec fn slots_stay<P>(slots: Seq<TileSlot<P>>, tiles: Seq<RawTile<P>>, from: int) -> bool {
    forall|i: int| 0 <= i < slots.len() ==> #[trigger] came_from(slots[i], tiles, from)
}

/// Each tile that stays, from place `from` of the list on, has its slot.
pub open spec fn stayers_held<P>(slots: Seq<TileSlot<P>>, tiles: Seq<RawTile<P>>, from: int) -> bool {
    forall|j: int| from <= j && #[trigger] stays(tiles, j) ==> held(slots, tiles[j])
}

/// The cell of each sound tile from place `from` on is covered.
pub open spec fn sound_cells_covered<P>(
    slots: Seq<TileSlot<P>>,
    tiles: Seq<RawTile<P>>,
    from: int,
) -> bool {
    forall|j: int|
        from <= j < tiles.len() && #[trigger] raw_sound(tiles[j]) ==> covers(
            slots,
            tiles[j].x,
            tiles[j].y,
        )
}

/// The slots are what the tiles from place `from` on come to.
pub open spec fn assembled_from<P>(slots: Seq<TileSlot<P>>, tiles: Seq<RawTile<P>>, from: int) -> bool {
    &&& slots_stay(slots, tiles, from)
    &&& stayers_held(slots, tiles, from)
    &&& sound_cells_covered(slots, tiles, from)
}

/// A slot that holds a tile from a place on holds one from every earlier
/// place on.
proof fn stays_from_earlier<P>(slots: Seq<TileSlot<P>>, tiles: Seq<RawTile<P>>, k: int)
    requires
        slots_stay(slots, tiles, k + 1),
    ensures
        slots_stay(slots, tiles, k),
{
    assert forall|i: int| 0 <= i < slots.len() implies #[trigger] came_from(slots[i], tiles, k) by {
        assert(came_from(slots[i], tiles, k + 1));
        let j = choose|j: int|
            k + 1 <= j && stays(tiles, j) && #[trigger] holds_copy(slots[i], tiles[j]);
        assert(k <= j && stays(tiles, j) && holds_copy(slots[i], tiles[j]));
    }
}

/// A tile whose cell is covered by a tile behind it does not stay.
proof fn covered_tile_is_passed<P>(slots: Seq<TileSlot<P>>, tiles: Seq<RawTile<P>>, k: int)
    requires
        0 <= k < tiles.len(),
        assembled_from(slots, tiles, k + 1),
        covers(slots, tiles[k].x, tiles[k].y),
    ensures
        assembled_from(slots, tiles, k),
{
    let i = choose|i: int|
        0 <= i < slots.len() && (#[trigger] slots[i]).x == tiles[k].x && slots[i].y == tiles[k].y;
    assert(came_from(slots[i], tiles, k + 1));
    let j = choose|j: int| k + 1 <= j && stays(tiles, j) && #[trigger] holds_copy(slots[i], tiles[j]);
    assert(raw_sound(tiles[j]) && tiles[j].x == tiles[k].x && tiles[j].y == tiles[k].y);
    assert(!stays(tiles, k));
    stays_from_earlier(slots, tiles, k);
}

/// An unsound tile does not stay.
proof fn unsound_tile_is_passed<P>(slots: Seq<TileSlot<P>>, tiles: Seq<RawTile<P>>, k: int)
    requires
        0 <= k < tiles.len(),
        assembled_from(slots, tiles, k + 1),
        !raw_sound(tiles[k]),
    ensures
        assembled_from(slots, tiles, k),
{
    assert(!stays(tiles, k));
    stays_from_earlier(slots, tiles, k);
}

/// A sound tile whose cell is free stays, in a slot behind the others.
proof fn free_tile_is_kept<P>(
    before: Seq<TileSlot<P>>,
    slot: TileSlot<P>,
    tiles: Seq<RawTile<P>>,
    k: int,
)
    requires
        0 <= k < tiles.len(),
        assembled_from(before, tiles, k + 1),
        !covers(before, tiles[k].x, tiles[k].y),
        raw_sound(tiles[k]),
        holds_copy(slot, tiles[k]),
    ensures
        assembled_from(before.push(slot), tiles, k),
{
    let after = before.push(slot);
    assert forall|later: int| k < later < tiles.len() implies !(#[trigger] raw_sound(tiles[later])
        && tiles[later].x == tiles[k].x && tiles[later].y == tiles[k].y) by {
        if raw_sound(tiles[later]) {
            assert(covers(before, tiles[later].x, tiles[later].y));
        }
    }
    assert(stays(tiles, k));
    assert forall|i: int| 0 <= i < after.len() implies #[trigger] came_from(after[i], tiles, k) by {
        if i < before.len() {
            assert(after[i] == before[i]);
            assert(came_from(before[i], tiles, k + 1));
            let j = choose|j: int|
                k + 1 <= j && stays(tiles, j) && #[trigger] holds_copy(before[i], tiles[j]);
            assert(k <= j && stays(tiles, j) && holds_copy(after[i], tiles[j]));
        } else {
            assert(after[i] == slot);
            assert(k <= k && stays(tiles, k) && holds_copy(after[i], tiles[k]));
        }
    }
    assert forall|j: int| k <= j && #[trigger] stays(tiles, j) implies held(after, tiles[j]) by {
        if j == k {
            assert(after[before.len() as int] == slot);
            assert(holds_copy(after[before.len() as int], tiles[j]));
        } else {
            assert(held(before, tiles[j]));
            let i = choose|i: int| 0 <= i < before.len() && #[trigger] holds_copy(before[i], tiles[j]);
            assert(after[i] == before[i]);
            assert(holds_copy(after[i], tiles[j]));
        }
    }
    assert forall|j: int| k <= j < tiles.len() && #[trigger] raw_sound(tiles[j]) implies covers(
        after,
        tiles[j].x,
        tiles[j].y,
    ) by {
        if j == k {
            assert(after[before.len() as int].x == tiles[j].x && after[before.len() as int].y
                == tiles[j].y);
        } else {
            let i = choose|i: int|
                0 <= i < before.len() && (#[trigger] before[i]).x == tiles[j].x && before[i].y
                    == tiles[j].y;
            assert(after[i].x == tiles[j].x && after[i].y == tiles[j].y);
        }
    }
}

/// Builds a mesh from unchecked tiles. A tile with a polygon that points
/// outside its vertices is left out; of two sound tiles for one cell the
/// later one stays. The mesh holds the tiles that stay and no others, the
/// last of them first.
pub fn assemble<P>(tiles: Vec<RawTile<P>>) -> (mesh: NavMesh<P>)
    ensures
        slots_stay(mesh.slots(), tiles@, 0),
        stayers_held(mesh.slots(), tiles@, 0),
        sound_cells_covered(mesh.slots(), tiles@, 0),
{
    let mut mesh: NavMesh<P> = NavMesh::new();
    let mut rest = tiles;
    proof {
        assert(rest@.take(rest@.len() as int) =~= tiles@);
    }
    while rest.len() > 0
        invariant
            rest@ == tiles@.take(rest@.len() as int),
            rest@.len() <= tiles@.len(),
            assembled_from(mesh.slots(), tiles@, rest@.len() as int),
        decreases rest@.len(),
    {
        let ghost before = mesh.slots();
        let ghost k = rest@.len() as int - 1;
        let raw = rest.pop().unwrap();
        proof {
            assert(raw == tiles@[k]);
            assert(rest@ =~= tiles@.take(k));
        }
        let x = raw.x;
        let y = raw.y;
        if mesh.find_tile(x, y).is_some() {
            proof {
                covered_tile_is_passed(before, tiles@, k);
            }
        } else {
            match NavTile::new(raw.vertices, raw.polygons) {
                Some(tile) => {
                    mesh.replace_tile(x, y, tile);
                    proof {
                        let slot = mesh.slots().last();
                        free_tile_is_kept(before, slot, tiles@, k);
                    }
                },
                None => {
                    proof {
                        unsound_tile_is_passed(before, tiles@, k);
                    }
                },
            }
        }
    }
    mesh
}

/// A tile of these vertices, with polygons of these corners, is sound:
/// every corner names a vertex.
pub open spec fn shape_sound<P>(shape: (Seq<P>, Seq<Seq<u32>>)) -> bool {
    loops_in_range(shape.1, shape.0.len())
}

/// The slots are a copy of a mesh of these shapes: each slot holds a tile of
/// the mesh at its cell, with the same vertices and the same polygons, and
/// each sound tile of the mesh has its slot.
pub open spec fn copy_of<P>(
    slots: Seq<TileSlot<P>>,
    shapes: Map<(u32, u32), (Seq<P>, Seq<Seq<u32>>)>,
) -> bool {
    &&& forall|i: int|
        0 <= i < slots.len() ==> shapes.contains_key(((#[trigger] slots[i]).x, slots[i].y))
            && shapes[(slots[i].x, slots[i].y)] == (
            slots[i].tile.vertices(),
            slots[i].tile.polygons(),
        )
    &&& forall|x: u32, y: u32| #[trigger]
        shapes.contains_key((x, y)) && shape_sound(shapes[(x, y)]) ==> covers(slots, x, y)
}

/// A copy of the builder's mesh as it stands, taken whole. The copy holds
/// each sound tile of the mesh, once, at its cell, with the same vertices
/// and the same polygons, and it holds nothing else: a tile with a polygon
/// that points outside its vertices is left out.
pub fn snapshot(mesh: &NavMeshTiles) -> (copy: NavMesh<Vec3>)
    ensures
        copy_of(copy.slots(), tile_shapes(*mesh)),
{
    let tiles = copy_tiles(mesh);
    let copy = assemble(tiles);
    proof {
        let shapes = tile_shapes(*mesh);
        let slots = copy.slots();
        assert forall|i: int| 0 <= i < slots.len() implies shapes.contains_key(
            ((#[trigger] slots[i]).x, slots[i].y),
        ) && shapes[(slots[i].x, slots[i].y)] == (
            slots[i].tile.vertices(),
            slots[i].tile.polygons(),
        ) by {
            assert(came_from(slots[i], tiles@, 0));
            let j = choose|j: int| 0 <= j && stays(tiles@, j) && #[trigger] holds_copy(
                slots[i],
                tiles@[j],
            );
            assert(tiles@[j].x == slots[i].x && tiles@[j].y == slots[i].y);
        }
        assert forall|x: u32, y: u32| #[trigger]
            shapes.contains_key((x, y)) && shape_sound(shapes[(x, y)]) implies covers(
            slots,
            x,
            y,
        ) by {
            let j = choose|j: int|
                0 <= j < tiles@.len() && (#[trigger] tiles@[j]).x == x && tiles@[j].y == y;
            assert(shapes[(tiles@[j].x, tiles@[j].y)] == (
                tiles@[j].vertices@,
                loops_of(tiles@[j].polygons@),
            ));
            assert(raw_sound(tiles@[j]));
        }
    }
    copy
}

/// The mesh pass: the overlay of a copy of the builder's mesh, which holds
/// its sound tiles with their vertices and polygons, or nothing where the
/// mesh could not be read this frame.
pub fn draw_mesh_overlay(mesh: Option<&NavMeshTiles>) -> (lines: Vec<DebugSegment<Vec3>>)
    ensures
        mesh is None ==> lines@.len() == 0,
        mesh matches Some(m) ==> exists|copy: NavMesh<Vec3>|
            copy_of(copy.slots(), tile_shapes(*m)) && lines@ == mesh_lines(copy),
{
    match mesh {
        Some(mesh) => draw_nav_mesh(&snapshot(mesh)),
        None => Vec::new(),
    }
}

} // verus!
