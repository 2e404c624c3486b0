//! The fixed-size tile grid: coordinate lookup, the 4-neighbor road test,
//! and the click transition on one tile.

use vstd::arithmetic::div_mod::lemma_fundamental_div_mod_converse;
use vstd::prelude::*;

use crate::zone::{spec_next, Zone};

verus! {

/// Grid width of the standard city map, in tiles.
pub const MAP_WIDTH: usize = 32;

/// Grid height of the standard city map, in tiles.
pub const MAP_HEIGHT: usize = 32;

/// Largest number of tiles a grid may hold. Chosen so that the sum of one
/// counter over all tiles (each at most 100) still fits in a `u32`.
pub const MAX_TILES: usize = 42949672;

/// Largest value either tile counter may reach; ticks clamp to it.
pub const MAX_COUNTER: u32 = 100;

/// One tile of the grid: its zoning and its two simulation counters.
#[derive(Clone, Copy, PartialEq, Eq, Structural, Debug)]
pub struct Tile {
    pub zone: Zone,
    pub population: u32,
    pub jobs: u32,
}

impl Tile {
    /// Both counters lie within [0, 100].
    pub open spec fn wf(self) -> bool {
        self.population <= MAX_COUNTER && self.jobs <= MAX_COUNTER
    }
}

/// A fixed WIDTH x HEIGHT set of tiles, stored row-major: the tile at
/// coordinate (x, y) sits at index `y * width + x`. Tiles are created once
/// at startup and never added or removed.
pub struct Grid {
    pub width: usize,
    pub height: usize,
    pub tiles: Vec<Tile>,
}

impl Grid {
    /// Well-formedness: positive dimensions, exactly width * height tiles,
    /// every counter clamped within [0, 100].
    pub open spec fn wf(self) -> bool {
        &&& 1 <= self.width
        &&& 1 <= self.height
        &&& self.width * self.height <= MAX_TILES
        &&& self.tiles@.len() == self.width * self.height
        &&& forall|i: int| 0 <= i < self.tiles@.len() ==> (#[trigger] self.tiles@[i]).wf()
    }

    /// Row-major index of coordinate (x, y).
    pub open spec fn spec_index(self, x: int, y: int) -> int {
        y * self.width + x
    }

    /// Whether (x, y) names a tile of this grid.
    pub open spec fn in_bounds(self, x: int, y: int) -> bool {
        0 <= x < self.width && 0 <= y < self.height
    }

    /// The tile at coordinate (x, y).
    pub open spec fn tile_at(self, x: int, y: int) -> Tile {
        self.tiles@[self.spec_index(x, y)]
    }

    /// Whether any of the 4 axis-aligned neighbors of (x, y) exists and is
    /// a Road. Coordinates off the grid yield no neighbor, not an error,
    /// and (x, y) itself is never its own neighbor.
    pub open spec fn has_adjacent_road(self, x: int, y: int) -> bool {
        ||| x + 1 < self.width && self.tile_at(x + 1, y).zone == Zone::Road
        ||| 0 < x && self.tile_at(x - 1, y).zone == Zone::Road
        ||| y + 1 < self.height && self.tile_at(x, y + 1).zone == Zone::Road
        ||| 0 < y && self.tile_at(x, y - 1).zone == Zone::Road
    }

    /// A new grid of the given dimensions, every tile Empty with both
    /// counters zero.
    pub fn new(width: usize, height: usize) -> (g: Grid)
        requires
            1 <= width,
            1 <= height,
            width * height <= MAX_TILES,
        ensures
            g.wf(),
            g.width == width,
            g.height == height,
            forall|i: int| 0 <= i < g.tiles@.len() ==> g.tiles@[i] == (Tile {
                zone: Zone::Empty,
                population: 0,
                jobs: 0,
            }),
    {
        let n = width * height;
        let mut tiles: Vec<Tile> = Vec::new();
        let mut i: usize = 0;
        while i < n
            invariant
                i <= n,
                tiles@.len() == i,
                forall|j: int| 0 <= j < i ==> tiles@[j] == (Tile {
                    zone: Zone::Empty,
                    population: 0,
                    jobs: 0,
                }),
            decreases n - i,
        {
            tiles.push(Tile { zone: Zone::Empty, population: 0, jobs: 0 });
            i += 1;
        }
        Grid { width, height, tiles }
    }

    /// Copy of the tile at (x, y).
    pub fn tile(&self, x: usize, y: usize) -> (t: Tile)
        requires
            self.wf(),
            self.in_bounds(x as int, y as int),
        ensures
            t == self.tile_at(x as int, y as int),
    {
        proof {
            lemma_index_in_range(*self, x as int, y as int);
        }
        let idx = y * self.width + x;
        self.tiles[idx]
    }

    /// Zone of the tile at (x, y); what the presentation layer reads to
    /// pick a sprite.
    pub fn zone_at(&self, x: usize, y: usize) -> (z: Zone)
        requires
            self.wf(),
            self.in_bounds(x as int, y as int),
        ensures
            z == self.tile_at(x as int, y as int).zone,
    {
        self.tile(x, y).zone
    }

    /// Whether any 4-neighbor of (x, y) is a Road.
    pub fn adjacent_road(&self, x: usize, y: usize) -> (r: bool)
        requires
            self.wf(),
            self.in_bounds(x as int, y as int),
        ensures
            r == self.has_adjacent_road(x as int, y as int),
    {
        let right = x + 1 < self.width && self.zone_at(x + 1, y) == Zone::Road;
        let left = x > 0 && self.zone_at(x - 1, y) == Zone::Road;
        let up = y + 1 < self.height && self.zone_at(x, y + 1) == Zone::Road;
        let down = y > 0 && self.zone_at(x, y - 1) == Zone::Road;
        right || left || up || down
    }

    /// A resolved click at (x, y): if the coordinate is inside the grid,
    /// cycle that tile's zone and leave its counters alone; a coordinate
    /// outside the bounds changes nothing anywhere.
    pub fn click(&mut self, x: i32, y: i32)
        requires
            old(self).wf(),
        ensures
            final(self).wf(),
            final(self).width == old(self).width,
            final(self).height == old(self).height,
            old(self).in_bounds(x as int, y as int) ==> final(self).tiles@ == old(
                self,
            ).tiles@.update(
                old(self).spec_index(x as int, y as int),
                (Tile {
                    zone: spec_next(old(self).tile_at(x as int, y as int).zone),
                    population: old(self).tile_at(x as int, y as int).population,
                    jobs: old(self).tile_at(x as int, y as int).jobs,
                }),
            ),
            !old(self).in_bounds(x as int, y as int) ==> final(self).tiles@ == old(self).tiles@,
    {
        if x < 0 || y < 0 {
            return ;
        }
        let xu = x as usize;
        let yu = y as usize;
        if xu >= self.width || yu >= self.height {
            return ;
        }
        proof {
            lemma_index_in_range(*self, xu as int, yu as int);
        }
        let idx = yu * self.width + xu;
        let t = self.tiles[idx];
        self.tiles[idx] = Tile { zone: t.zone.next(), population: t.population, jobs: t.jobs };
    }
}

/// The row-major index of an in-bounds coordinate lies within the tile
/// vector.
pub proof fn lemma_index_in_range(g: Grid, x: int, y: int)
    requires
        g.wf(),
        g.in_bounds(x, y),
    ensures
        0 <= g.spec_index(x, y) < g.tiles@.len(),
{
    assert(y * g.width + x < g.height * g.width) by (nonlinear_arith)
        requires
            0 <= x < g.width,
            0 <= y < g.height,
    ;
    assert(g.height * g.width == g.width * g.height) by (nonlinear_arith);
}

/// Dividing a row-major index by the width recovers the coordinate it was
/// built from.
pub proof fn lemma_index_roundtrip(g: Grid, x: int, y: int)
    requires
        g.wf(),
        g.in_bounds(x, y),
    ensures
        g.spec_index(x, y) % (g.width as int) == x,
        g.spec_index(x, y) / (g.width as int) == y,
{
    lemma_fundamental_div_mod_converse(y * g.width + x, g.width as int, y, x);
}

} // verus!
