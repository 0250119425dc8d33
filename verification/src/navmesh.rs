//! A navigation mesh as a versioned collection of tiles. A tile is a list of
//! vertices and a list of polygons; a polygon is a closed loop of indices
//! into the vertices of its tile. The type of a vertex is left open.

use vstd::prelude::*;

verus! {

/// Every index of every polygon names a vertex.
pub open spec fn loops_in_range(polygons: Seq<Seq<u32>>, vertex_count: nat) -> bool {
    forall|p: int, k: int|
        0 <= p < polygons.len() && 0 <= k < polygons[p].len() ==> (#[trigger] polygons[p][k])
            < vertex_count
}

/// Every index of one polygon names a vertex.
pub open spec fn loop_in_range(corners: Seq<u32>, vertex_count: nat) -> bool {
    forall|k: int| 0 <= k < corners.len() ==> (#[trigger] corners[k]) < vertex_count
}

/// The polygons of a tile as sequences of indices.
pub open spec fn loops_of(polygons: Seq<Vec<u32>>) -> Seq<Seq<u32>> {
    Seq::new(polygons.len(), |p: int| polygons[p]@)
}

/// Tells whether every index of `corners` is below `vertex_count`.
pub fn check_loop(corners: &Vec<u32>, vertex_count: usize) -> (sound: bool)
    ensures
        sound == loop_in_range(corners@, vertex_count as nat),
{
    let mut k: usize = 0;
    while k < corners.len()
        invariant
            k <= corners.len(),
            forall|j: int| 0 <= j < k ==> (#[trigger] corners@[j]) < vertex_count,
        decreases corners.len() - k,
    {
        if corners[k] as usize >= vertex_count {
            return false;
        }
        k += 1;
    }
    true
}

/// Tells whether every index of every polygon is below `vertex_count`.
pub fn check_loops(polygons: &Vec<Vec<u32>>, vertex_count: usize) -> (sound: bool)
    ensures
        sound == loops_in_range(loops_of(polygons@), vertex_count as nat),
{
    let mut p: usize = 0;
    while p < polygons.len()
        invariant
            p <= polygons.len(),
            forall|q: int, k: int|
                0 <= q < p && 0 <= k < polygons@[q]@.len() ==> (#[trigger] polygons@[q]@[k])
                    < vertex_count,
        decreases polygons.len() - p,
    {
        if !check_loop(&polygons[p], vertex_count) {
            proof {
                let bad = choose|k: int|
                    0 <= k < polygons@[p as int]@.len() && !((#[trigger] polygons@[p as int]@[k])
                        < vertex_count);
                assert(loops_of(polygons@)[p as int][bad] >= vertex_count);
            }
            return false;
        }
        p += 1;
    }
    proof {
        assert forall|q: int, k: int|
            0 <= q < loops_of(polygons@).len() && 0 <= k < loops_of(
                polygons@,
            )[q].len() implies (#[trigger] loops_of(polygons@)[q][k]) < vertex_count by {
            assert(polygons@[q]@[k] < vertex_count);
        }
    }
    true
}

/// One tile of a navigation mesh. A value of this type never holds a polygon
/// that points outside its vertices.
pub struct NavTile<P> {
    vertices: Vec<P>,
    polygons: Vec<Vec<u32>>,
}

impl<P> NavTile<P> {
    #[verifier::type_invariant]
    spec fn sound(&self) -> bool {
        loops_in_range(loops_of(self.polygons@), self.vertices@.len())
    }

    /// The vertices of the tile.
    pub closed spec fn vertices(&self) -> Seq<P> {
        self.vertices@
    }

    /// The polygons of the tile.
    pub closed spec fn polygons(&self) -> Seq<Seq<u32>> {
        loops_of(self.polygons@)
    }

    /// Builds a tile, or refuses one with a polygon that points outside
    /// `vertices`.
    pub fn new(vertices: Vec<P>, polygons: Vec<Vec<u32>>) -> (tile: Option<Self>)
        ensures
            tile is Some <==> loops_in_range(loops_of(polygons@), vertices@.len()),
            tile matches Some(t) ==> t.vertices() == vertices@ && t.polygons() == loops_of(
                polygons@,
            ),
    {
        if check_loops(&polygons, vertices.len()) {
            Some(NavTile { vertices, polygons })
        } else {
            None
        }
    }

    /// What holds of every tile, at every moment that a reader can see it:
    /// each polygon index names a vertex. The call does nothing at run time.
    pub fn indices_in_range(&self)
        ensures
            loops_in_range(self.polygons(), self.vertices().len()),
    {
        proof {
            use_type_invariant(self);
        }
    }

    pub fn vertex_count(&self) -> (n: usize)
        ensures
            n == self.vertices().len(),
    {
        self.vertices.len()
    }

    pub fn polygon_count(&self) -> (n: usize)
        ensures
            n == self.polygons().len(),
    {
        self.polygons.len()
    }

    /// The vertices, to read.
    pub fn vertex_list(&self) -> (list: &Vec<P>)
        ensures
            list@ == self.vertices(),
    {
        &self.vertices
    }

    /// The corners of polygon `p`, to read.
    pub fn polygon(&self, p: usize) -> (corners: &Vec<u32>)
        requires
            p < self.polygons().len(),
        ensures
            corners@ == self.polygons()[p as int],
            loop_in_range(corners@, self.vertices().len()),
    {
        proof {
            use_type_invariant(self);
            assert forall|k: int| 0 <= k < self.polygons@[p as int]@.len() implies (
            #[trigger] self.polygons@[p as int]@[k]) < self.vertices@.len() by {
                assert(loops_of(self.polygons@)[p as int][k] < self.vertices@.len());
            }
        }
        &self.polygons[p]
    }
}

/// A tile together with the coordinate of the mesh cell that it covers.
pub struct TileSlot<P> {
    pub x: u32,
    pub y: u32,
    pub tile: NavTile<P>,
}

/// Some slot of `slots` covers the cell `(x, y)`.
pub open spec fn covers<P>(slots: Seq<TileSlot<P>>, x: u32, y: u32) -> bool {
    exists|i: int| 0 <= i < slots.len() && (#[trigger] slots[i]).x == x && slots[i].y == y
}

/// No two slots cover the same cell.
pub open spec fn cells_distinct<P>(slots: Seq<TileSlot<P>>) -> bool {
    forall|i: int, j: int|
        0 <= i < j < slots.len() ==> !((#[trigger] slots[i]).x == (#[trigger] slots[j]).x
            && slots[i].y == slots[j].y)
}

/// The place of the slot that covers the cell `(x, y)`, where one does.
pub open spec fn place_of<P>(slots: Seq<TileSlot<P>>, x: u32, y: u32) -> int {
    choose|i: int| 0 <= i < slots.len() && (#[trigger] slots[i]).x == x && slots[i].y == y
}

/// The slots after `slot` has been put at its cell: in place of the slot
/// that covered the cell, or behind the others where none did.
pub open spec fn with_tile<P>(slots: Seq<TileSlot<P>>, slot: TileSlot<P>) -> Seq<TileSlot<P>> {
    if covers(slots, slot.x, slot.y) {
        Seq::new(
            slots.len(),
            |i: int|
                if slots[i].x == slot.x && slots[i].y == slot.y {
                    slot
                } else {
                    slots[i]
                },
        )
    } else {
        slots.push(slot)
    }
}

/// The version after one more change: it counts up and stays at the largest
/// number once it has reached it.
pub open spec fn next_version(version: u64) -> u64 {
    if version < u64::MAX {
        (version + 1) as u64
    } else {
        version
    }
}

/// The tiles of a navigation mesh, at most one per cell, with a version that
/// every change moves on. A tile is put in or taken out whole, through an
/// exclusive reference, so that a reader sees it before the change or after
/// it and never in between.
pub struct NavMesh<P> {
    slots: Vec<TileSlot<P>>,
    version: u64,
}

/// Every polygon of every tile names vertices of its own tile.
pub open spec fn tiles_in_range<P>(slots: Seq<TileSlot<P>>) -> bool {
    forall|i: int|
        0 <= i < slots.len() ==> loops_in_range(
            (#[trigger] slots[i]).tile.polygons(),
            slots[i].tile.vertices().len(),
        )
}

impl<P> NavMesh<P> {
    #[verifier::type_invariant]
    spec fn sound(&self) -> bool {
        cells_distinct(self.slots@) && tiles_in_range(self.slots@)
    }

    /// The tiles in the order in which their cells were first filled.
    pub closed spec fn slots(&self) -> Seq<TileSlot<P>> {
        self.slots@
    }

    pub closed spec fn spec_version(&self) -> u64 {
        self.version
    }

    /// A mesh without tiles, at version 0.
    pub fn new() -> (mesh: Self)
        ensures
            mesh.slots().len() == 0,
            mesh.spec_version() == 0,
    {
        NavMesh { slots: Vec::new(), version: 0 }
    }

    #[verifier::when_used_as_spec(spec_version)]
    pub fn version(&self) -> (v: u64)
        ensures
            v == self.spec_version(),
    {
        self.version
    }

    pub fn tile_count(&self) -> (n: usize)
        ensures
            n == self.slots().len(),
    {
        self.slots.len()
    }

    /// What holds of every mesh: no cell is covered twice. The call does
    /// nothing at run time.
    pub fn cells_are_distinct(&self)
        ensures
            cells_distinct(self.slots()),
    {
        proof {
            use_type_invariant(self);
        }
    }

    /// What holds of every mesh, whenever it can be read, between any two
    /// changes of its tiles: no polygon points outside the vertices of its
    /// tile. The call does nothing at run time.
    pub fn every_tile_in_range(&self)
        ensures
            tiles_in_range(self.slots()),
    {
        proof {
            use_type_invariant(self);
        }
    }

    /// The slot at position `i`, to read.
    pub fn slot(&self, i: usize) -> (slot: &TileSlot<P>)
        requires
            i < self.slots().len(),
        ensures
            *slot == self.slots()[i as int],
    {
        &self.slots[i]
    }

    /// The position of the slot that covers `(x, y)`.
    pub fn find_tile(&self, x: u32, y: u32) -> (place: Option<usize>)
        ensures
            place is Some <==> covers(self.slots(), x, y),
            place matches Some(i) ==> i < self.slots().len() && self.slots()[i as int].x == x
                && self.slots()[i as int].y == y,
    {
        let mut i: usize = 0;
        while i < self.slots.len()
            invariant
                i <= self.slots@.len(),
                forall|j: int|
                    0 <= j < i ==> !((#[trigger] self.slots@[j]).x == x && self.slots@[j].y
                        == y),
            decreases self.slots.len() - i,
        {
            if self.slots[i].x == x && self.slots[i].y == y {
                return Some(i);
            }
            i += 1;
        }
        None
    }

    /// Puts `tile` at `(x, y)`: in place of the tile that covered the cell,
    /// or behind the others where none did. The other tiles stay as they
    /// were and the version moves on.
    pub fn replace_tile(&mut self, x: u32, y: u32, tile: NavTile<P>)
        ensures
            final(self).slots() == with_tile(old(self).slots(), (TileSlot { x, y, tile })),
            final(self).spec_version() == next_version(old(self).spec_version()),
    {
        proof {
            use_type_invariant(&*self);
            use_type_invariant(&tile);
        }
        let place = self.find_tile(x, y);
        if self.version < u64::MAX {
            self.version = self.version + 1;
        }
        match place {
            Some(i) => {
                let mut slots: Vec<TileSlot<P>> = Vec::new();
                core::mem::swap(&mut self.slots, &mut slots);
                slots.set(i, TileSlot { x, y, tile });
                core::mem::swap(&mut self.slots, &mut slots);
            },
            None => {
                let mut slots: Vec<TileSlot<P>> = Vec::new();
                core::mem::swap(&mut self.slots, &mut slots);
                slots.push(TileSlot { x, y, tile });
                core::mem::swap(&mut self.slots, &mut slots);
            },
        }
    }

    /// Takes out the tile at `(x, y)` and hands it back; the others keep
    /// their order and the version moves on. Where the cell was empty
    /// nothing changes.
    pub fn remove_tile(&mut self, x: u32, y: u32) -> (removed: Option<NavTile<P>>)
        ensures
            removed is Some <==> covers(old(self).slots(), x, y),
            removed is None ==> final(self).slots() == old(self).slots(),
            removed is None ==> final(self).spec_version() == old(self).spec_version(),
            removed matches Some(tile) ==> tile == old(self).slots()[place_of(
                old(self).slots(),
                x,
                y,
            )].tile,
            removed is Some ==> final(self).slots() == old(self).slots().remove(
                place_of(old(self).slots(), x, y),
            ),
            removed is Some ==> final(self).spec_version() == next_version(
                old(self).spec_version(),
            ),
    {
        proof {
            use_type_invariant(&*self);
        }
        match self.find_tile(x, y) {
            Some(i) => {
                if self.version < u64::MAX {
                    self.version = self.version + 1;
                }
                let mut slots: Vec<TileSlot<P>> = Vec::new();
                core::mem::swap(&mut self.slots, &mut slots);
                let slot = slots.remove(i);
                core::mem::swap(&mut self.slots, &mut slots);
                Some(slot.tile)
            },
            None => None,
        }
    }
}

} // verus!
