//! Debug overlay: the line segments that show a navigation mesh and a path.
//! The segments are made anew on every call; nothing is kept between calls.

use vstd::prelude::*;
use crate::navmesh::{loop_in_range, NavMesh, NavTile, TileSlot};

verus! {

/// One line of the overlay.
#[derive(Debug, PartialEq)]
pub enum DebugSegment<P> {
    /// An edge of a mesh polygon.
    Edge { from: P, to: P },
    /// The mark of a mesh vertex: a short line straight up from `at`.
    Marker { at: P },
    /// One leg of a path.
    Leg { from: P, to: P },
}

/// The corner that follows corner `k` on a closed loop of `corners` corners.
pub open spec fn next_corner(k: int, corners: int) -> int {
    if k + 1 == corners {
        0
    } else {
        k + 1
    }
}

/// The edges of one polygon: from each corner to the next, and from the last
/// corner back to the first.
pub open spec fn polygon_edges<P>(vertices: Seq<P>, corners: Seq<u32>) -> Seq<DebugSegment<P>> {
    Seq::new(
        corners.len(),
        |k: int|
            DebugSegment::Edge {
                from: vertices[corners[k] as int],
                to: vertices[corners[next_corner(k, corners.len() as int)] as int],
            },
    )
}

/// The edges of the first `upto` polygons, polygon after polygon.
pub open spec fn edges_upto<P>(vertices: Seq<P>, polygons: Seq<Seq<u32>>, upto: int) -> Seq<
    DebugSegment<P>,
>
    decreases upto,
{
    if upto <= 0 {
        Seq::empty()
    } else {
        edges_upto(vertices, polygons, upto - 1) + polygon_edges(vertices, polygons[upto - 1])
    }
}

/// One marker for each vertex, in the order of the vertices.
pub open spec fn vertex_markers<P>(vertices: Seq<P>) -> Seq<DebugSegment<P>> {
    Seq::new(vertices.len(), |v: int| DebugSegment::Marker { at: vertices[v] })
}

/// The lines of one tile: the edges of all its polygons, then its markers.
pub open spec fn tile_lines<P>(tile: NavTile<P>) -> Seq<DebugSegment<P>> {
    edges_upto(tile.vertices(), tile.polygons(), tile.polygons().len() as int) + vertex_markers(
        tile.vertices(),
    )
}

/// The lines of the first `upto` tiles, tile after tile.
pub open spec fn mesh_lines_upto<P>(slots: Seq<TileSlot<P>>, upto: int) -> Seq<DebugSegment<P>>
    decreases upto,
{
    if upto <= 0 {
        Seq::empty()
    } else {
        mesh_lines_upto(slots, upto - 1) + tile_lines(slots[upto - 1].tile)
    }
}

/// The lines of a whole mesh.
pub open spec fn mesh_lines<P>(mesh: NavMesh<P>) -> Seq<DebugSegment<P>> {
    mesh_lines_upto(mesh.slots(), mesh.slots().len() as int)
}

/// The legs of a path that leaves `start`, passes the waypoints in order and
/// ends at `end`: one leg more than there are waypoints.
pub open spec fn path_legs<P>(start: P, waypoints: Seq<P>, end: P) -> Seq<DebugSegment<P>> {
    Seq::new(
        waypoints.len() + 1,
        |k: int|
            DebugSegment::Leg {
                from: if k == 0 {
                    start
                } else {
                    waypoints[k - 1]
                },
                to: if k == waypoints.len() {
                    end
                } else {
                    waypoints[k]
                },
            },
    )
}

/// Appends the edges of one polygon to `lines`.
pub fn push_polygon_edges<P: Copy>(
    lines: &mut Vec<DebugSegment<P>>,
    vertices: &Vec<P>,
    corners: &Vec<u32>,
)
    requires
        loop_in_range(corners@, vertices@.len()),
    ensures
        final(lines)@ == old(lines)@ + polygon_edges(vertices@, corners@),
{
    let n: usize = corners.len();
    let mut k: usize = 0;
    while k < n
        invariant
            k <= n,
            n == corners@.len(),
            loop_in_range(corners@, vertices@.len()),
            lines@ == old(lines)@ + polygon_edges(vertices@, corners@).take(k as int),
        decreases n - k,
    {
        let after: usize = if k + 1 == n {
            0
        } else {
            k + 1
        };
        let from: P = vertices[corners[k] as usize];
        let to: P = vertices[corners[after] as usize];
        lines.push(DebugSegment::Edge { from, to });
        proof {
            let all = polygon_edges(vertices@, corners@);
            assert(all.take(k + 1) =~= all.take(k as int).push(all[k as int]));
            assert(lines@ =~= old(lines)@ + all.take(k + 1));
        }
        k += 1;
    }
    proof {
        let all = polygon_edges(vertices@, corners@);
        assert(all.take(n as int) =~= all);
    }
}

/// Appends one marker for each vertex to `lines`.
pub fn push_vertex_markers<P: Copy>(lines: &mut Vec<DebugSegment<P>>, vertices: &Vec<P>)
    ensures
        final(lines)@ == old(lines)@ + vertex_markers(vertices@),
{
    let n: usize = vertices.len();
    let mut v: usize = 0;
    while v < n
        invariant
            v <= n,
            n == vertices@.len(),
            lines@ == old(lines)@ + vertex_markers(vertices@).take(v as int),
        decreases n - v,
    {
        let at: P = vertices[v];
        lines.push(DebugSegment::Marker { at });
        proof {
            let all = vertex_markers(vertices@);
            assert(all.take(v + 1) =~= all.take(v as int).push(all[v as int]));
            assert(lines@ =~= old(lines)@ + all.take(v + 1));
        }
        v += 1;
    }
    proof {
        let all = vertex_markers(vertices@);
        assert(all.take(n as int) =~= all);
    }
}

/// Appends the lines of one tile to `lines`.
pub fn push_tile_lines<P: Copy>(lines: &mut Vec<DebugSegment<P>>, tile: &NavTile<P>)
    ensures
        final(lines)@ == old(lines)@ + tile_lines(*tile),
{
    let vertices = tile.vertex_list();
    let n: usize = tile.polygon_count();
    let mut p: usize = 0;
    while p < n
        invariant
            p <= n,
            n == tile.polygons().len(),
            vertices@ == tile.vertices(),
            lines@ == old(lines)@ + edges_upto(tile.vertices(), tile.polygons(), p as int),
        decreases n - p,
    {
        let corners = tile.polygon(p);
        push_polygon_edges(lines, vertices, corners);
        proof {
            assert(lines@ =~= old(lines)@ + edges_upto(
                tile.vertices(),
                tile.polygons(),
                p + 1,
            ));
        }
        p += 1;
    }
    push_vertex_markers(lines, vertices);
    proof {
        assert(lines@ =~= old(lines)@ + tile_lines(*tile));
    }
}

/// The overlay of a navigation mesh: for each tile, one segment per polygon
/// edge, the loop closed from the last corner to the first, and then one
/// marker per vertex.
pub fn draw_nav_mesh<P: Copy>(mesh: &NavMesh<P>) -> (lines: Vec<DebugSegment<P>>)
    ensures
        lines@ == mesh_lines(*mesh),
{
    let mut lines: Vec<DebugSegment<P>> = Vec::new();
    let n: usize = mesh.tile_count();
    let mut t: usize = 0;
    while t < n
        invariant
            t <= n,
            n == mesh.slots().len(),
            lines@ == mesh_lines_upto(mesh.slots(), t as int),
        decreases n - t,
    {
        let slot = mesh.slot(t);
        push_tile_lines(&mut lines, &slot.tile);
        proof {
            assert(mesh_lines_upto(mesh.slots(), t + 1) == mesh_lines_upto(mesh.slots(), t as int)
                + tile_lines(mesh.slots()[t as int].tile));
        }
        t += 1;
    }
    lines
}

/// The overlay of a path: a leg from `start` to the first waypoint, one
/// between each two waypoints that follow each other, and one from the last
/// waypoint to `end`. Without waypoints it is the one leg from `start` to
/// `end`.
pub fn draw_path<P: Copy>(start: P, waypoints: &Vec<P>, end: P) -> (lines: Vec<DebugSegment<P>>)
    ensures
        lines@ == path_legs(start, waypoints@, end),
{
    let mut lines: Vec<DebugSegment<P>> = Vec::new();
    let n: usize = waypoints.len();
    let mut from: P = start;
    let mut k: usize = 0;
    while k < n
        invariant
            k <= n,
            n == waypoints@.len(),
            from == (if k == 0 {
                start
            } else {
                waypoints@[k - 1]
            }),
            lines@ == path_legs(start, waypoints@, end).take(k as int),
        decreases n - k,
    {
        let to: P = waypoints[k];
        lines.push(DebugSegment::Leg { from, to });
        proof {
            let all = path_legs(start, waypoints@, end);
            assert(all.take(k + 1) =~= all.take(k as int).push(all[k as int]));
        }
        from = to;
        k += 1;
    }
    lines.push(DebugSegment::Leg { from, to: end });
    proof {
        let all = path_legs(start, waypoints@, end);
        assert(all.take(n + 1) =~= all);
        assert(all.take(n + 1) =~= all.take(n as int).push(all[n as int]));
    }
    lines
}

/// The number of corners of the first `upto` polygons together.
pub open spec fn corner_total(polygons: Seq<Seq<u32>>, upto: int) -> nat
    decreases upto,
{
    if upto <= 0 {
        0
    } else {
        corner_total(polygons, upto - 1) + polygons[upto - 1].len()
    }
}

/// A polygon with the corners `a`, `b`, `c` gives exactly three edges: from
/// `a` to `b`, from `b` to `c`, and from `c` back to `a`.
pub proof fn triangle_has_three_edges<P>(vertices: Seq<P>, a: u32, b: u32, c: u32)
    ensures
        polygon_edges(vertices, seq![a, b, c]) == seq![
            DebugSegment::Edge { from: vertices[a as int], to: vertices[b as int] },
            DebugSegment::Edge { from: vertices[b as int], to: vertices[c as int] },
            DebugSegment::Edge { from: vertices[c as int], to: vertices[a as int] },
        ],
{
    let corners = seq![a, b, c];
    let edges = polygon_edges(vertices, corners);
    assert(corners.len() == 3);
    assert(corners[0] == a && corners[1] == b && corners[2] == c);
    assert(edges[0] == DebugSegment::Edge { from: vertices[a as int], to: vertices[b as int] });
    assert(edges[1] == DebugSegment::Edge { from: vertices[b as int], to: vertices[c as int] });
    assert(edges[2] == DebugSegment::Edge { from: vertices[c as int], to: vertices[a as int] });
    assert(edges =~= seq![
        DebugSegment::Edge { from: vertices[a as int], to: vertices[b as int] },
        DebugSegment::Edge { from: vertices[b as int], to: vertices[c as int] },
        DebugSegment::Edge { from: vertices[c as int], to: vertices[a as int] },
    ]);
}

/// The polygons of a tile give one edge for each of their corners.
pub proof fn edges_count_corners<P>(vertices: Seq<P>, polygons: Seq<Seq<u32>>, upto: int)
    ensures
        edges_upto(vertices, polygons, upto).len() == corner_total(polygons, upto),
    decreases upto,
{
    if upto > 0 {
        edges_count_corners(vertices, polygons, upto - 1);
    }
}

/// A tile gives one line for each corner of each polygon and one for each
/// vertex, the edges first: a line behind the edges is the marker of the
/// vertex at its place.
pub proof fn tile_gives_edges_then_markers<P>(tile: NavTile<P>)
    ensures
        tile_lines(tile).len() == corner_total(tile.polygons(), tile.polygons().len() as int)
            + tile.vertices().len(),
        forall|v: int|
            0 <= v < tile.vertices().len() ==> #[trigger] tile_lines(tile)[corner_total(
                tile.polygons(),
                tile.polygons().len() as int,
            ) + v] == (DebugSegment::Marker { at: tile.vertices()[v] }),
{
    edges_count_corners(tile.vertices(), tile.polygons(), tile.polygons().len() as int);
}

} // verus!
