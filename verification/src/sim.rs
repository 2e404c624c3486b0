//! The simulation step: one tick recomputes every tile's counters from a
//! snapshot of the pre-tick grid, overwrites the city totals, and adds a
//! money delta derived from them.

use vstd::arithmetic::div_mod::{lemma_mod_bound, lemma_multiply_divide_lt};
use vstd::prelude::*;

use crate::grid::{Grid, Tile, MAX_COUNTER};
use crate::stats::CityStats;
use crate::zone::Zone;

verus! {

/// The value of one tile after a tick, given whether a Road is adjacent
/// to it in the pre-tick grid:
/// - Residential gains 1 population, clamped to 100, only when a Road is
///   adjacent; without one it keeps its population (no decay).
/// - Commercial and Industrial gain 1 job, clamped to 100, unconditionally.
/// - Road and Empty have both counters forced to 0.
pub open spec fn ticked_tile(t: Tile, road_adjacent: bool) -> Tile {
    match t.zone {
        Zone::Residential => Tile {
            zone: t.zone,
            population: if road_adjacent {
                if t.population < MAX_COUNTER {
                    (t.population + 1) as u32
                } else {
                    MAX_COUNTER
                }
            } else {
                t.population
            },
            jobs: t.jobs,
        },
        Zone::Commercial | Zone::Industrial => Tile {
            zone: t.zone,
            population: t.population,
            jobs: if t.jobs < MAX_COUNTER {
                (t.jobs + 1) as u32
            } else {
                MAX_COUNTER
            },
        },
        Zone::Road | Zone::Empty => Tile { zone: t.zone, population: 0, jobs: 0 },
    }
}

/// All tiles after one tick, each computed from the pre-tick grid alone:
/// no tile's update observes another tile's update within the same pass.
pub open spec fn ticked_tiles(g: Grid) -> Seq<Tile> {
    Seq::new(
        g.tiles@.len(),
        |i: int|
            ticked_tile(
                g.tiles@[i],
                g.has_adjacent_road(i % (g.width as int), i / (g.width as int)),
            ),
    )
}

/// Sum of the population counters over a sequence of tiles.
pub open spec fn sum_population(s: Seq<Tile>) -> int
    decreases s.len(),
{
    if s.len() == 0 {
        0
    } else {
        sum_population(s.drop_last()) + s.last().population
    }
}

/// Sum of the jobs counters over a sequence of tiles.
pub open spec fn sum_jobs(s: Seq<Tile>) -> int
    decreases s.len(),
{
    if s.len() == 0 {
        0
    } else {
        sum_jobs(s.drop_last()) + s.last().jobs
    }
}

/// Appending a tile extends both sums by that tile's counters.
pub proof fn lemma_sum_push(s: Seq<Tile>, t: Tile)
    ensures
        sum_population(s.push(t)) == sum_population(s) + t.population,
        sum_jobs(s.push(t)) == sum_jobs(s) + t.jobs,
{
    assert(s.push(t).drop_last() =~= s);
    assert(s.push(t).last() == t);
}

/// Law (clamping invariant): a tick keeps every counter of every tile
/// within [0, 100]; since ticks are the only mutators of counters, the
/// bound holds after any number of ticks.
pub proof fn lemma_tick_preserves_bounds(g: Grid)
    requires
        g.wf(),
    ensures
        ticked_tiles(g).len() == g.tiles@.len(),
        forall|i: int| 0 <= i < ticked_tiles(g).len() ==> (#[trigger] ticked_tiles(g)[i]).wf(),
{
}

/// Law: a Residential tile with no Road in its 4-neighborhood is left
/// entirely unchanged by a tick — in particular its population is never
/// incremented, though a previously gained value is kept (no decay).
pub proof fn lemma_residential_without_road(g: Grid, x: int, y: int)
    requires
        g.wf(),
        g.in_bounds(x, y),
        g.tile_at(x, y).zone == Zone::Residential,
        !g.has_adjacent_road(x, y),
    ensures
        ticked_tiles(g)[g.spec_index(x, y)] == g.tile_at(x, y),
{
    crate::grid::lemma_index_in_range(g, x, y);
    crate::grid::lemma_index_roundtrip(g, x, y);
}

/// Law: a Commercial or Industrial tile gains exactly one job per tick,
/// saturating at 100, regardless of its neighbors; its population is left
/// alone.
pub proof fn lemma_jobs_increment(g: Grid, x: int, y: int)
    requires
        g.wf(),
        g.in_bounds(x, y),
        g.tile_at(x, y).zone == Zone::Commercial || g.tile_at(x, y).zone == Zone::Industrial,
    ensures
        ticked_tiles(g)[g.spec_index(x, y)].jobs == if g.tile_at(x, y).jobs < MAX_COUNTER {
            g.tile_at(x, y).jobs + 1
        } else {
            MAX_COUNTER as int
        },
        ticked_tiles(g)[g.spec_index(x, y)].population == g.tile_at(x, y).population,
{
    crate::grid::lemma_index_in_range(g, x, y);
    crate::grid::lemma_index_roundtrip(g, x, y);
}

/// Law: a tile set to Road or Empty has both counters forced to zero by
/// the very next tick that processes it (a hard reset, not decay).
pub proof fn lemma_road_empty_reset(g: Grid, x: int, y: int)
    requires
        g.wf(),
        g.in_bounds(x, y),
        g.tile_at(x, y).zone == Zone::Road || g.tile_at(x, y).zone == Zone::Empty,
    ensures
        ticked_tiles(g)[g.spec_index(x, y)].population == 0,
        ticked_tiles(g)[g.spec_index(x, y)].jobs == 0,
{
    crate::grid::lemma_index_in_range(g, x, y);
    crate::grid::lemma_index_roundtrip(g, x, y);
}

/// One simulation tick. Every tile is recomputed from the pre-tick grid
/// (a frozen snapshot: no update observes another update of the same
/// pass), the city totals are overwritten with the sums over the new
/// tiles, and `money` grows by `total_jobs / 5 - total_population / 10`
/// (truncating division). The change flag is raised exactly when one of
/// the three values actually changed.
pub fn simulation_step(grid: &mut Grid, stats: &mut CityStats)
    requires
        old(grid).wf(),
        old(stats).money + 858993440 <= i64::MAX,
        old(stats).money - 429496720 >= i64::MIN,
    ensures
        final(grid).wf(),
        final(grid).width == old(grid).width,
        final(grid).height == old(grid).height,
        final(grid).tiles@ == ticked_tiles(*old(grid)),
        final(stats).population == sum_population(ticked_tiles(*old(grid))),
        final(stats).jobs == sum_jobs(ticked_tiles(*old(grid))),
        final(stats).money == old(stats).money + sum_jobs(ticked_tiles(*old(grid))) / 5
            - sum_population(ticked_tiles(*old(grid))) / 10,
        final(stats).changed == (old(stats).changed || final(stats).population != old(
            stats,
        ).population || final(stats).jobs != old(stats).jobs || final(stats).money != old(
            stats,
        ).money),
{
    let ghost g0 = *grid;
    let n = grid.tiles.len();
    let width = grid.width;
    let mut new_tiles: Vec<Tile> = Vec::new();
    let mut total_population: u32 = 0;
    let mut total_jobs: u32 = 0;
    let mut i: usize = 0;
    while i < n
        invariant
            *grid == g0,
            g0.wf(),
            n == g0.tiles@.len(),
            width == g0.width,
            i <= n,
            new_tiles@.len() == i,
            forall|j: int| 0 <= j < i ==> new_tiles@[j] == ticked_tiles(g0)[j],
            forall|j: int| 0 <= j < i ==> (#[trigger] new_tiles@[j]).wf(),
            total_population == sum_population(new_tiles@),
            total_jobs == sum_jobs(new_tiles@),
            total_population <= 100 * i,
            total_jobs <= 100 * i,
        decreases n - i,
    {
        let x = i % width;
        let y = i / width;
        proof {
            lemma_mod_bound(i as int, width as int);
            lemma_multiply_divide_lt(i as int, width as int, g0.height as int);
        }
        let t = grid.tiles[i];
        let new_t = match t.zone {
            Zone::Residential => {
                let road = grid.adjacent_road(x, y);
                if road {
                    Tile {
                        zone: t.zone,
                        population: if t.population < MAX_COUNTER {
                            t.population + 1
                        } else {
                            MAX_COUNTER
                        },
                        jobs: t.jobs,
                    }
                } else {
                    t
                }
            },
            Zone::Commercial | Zone::Industrial => Tile {
                zone: t.zone,
                population: t.population,
                jobs: if t.jobs < MAX_COUNTER {
                    t.jobs + 1
                } else {
                    MAX_COUNTER
                },
            },
            Zone::Road | Zone::Empty => Tile { zone: t.zone, population: 0, jobs: 0 },
        };
        proof {
            assert(new_t == ticked_tiles(g0)[i as int]);
            lemma_sum_push(new_tiles@, new_t);
        }
        new_tiles.push(new_t);
        total_population = total_population + new_t.population;
        total_jobs = total_jobs + new_t.jobs;
        i += 1;
    }
    proof {
        assert(new_tiles@ =~= ticked_tiles(g0));
        lemma_tick_preserves_bounds(g0);
    }
    grid.tiles = new_tiles;
    let jobs_income = total_jobs / 5;
    let population_upkeep = total_population / 10;
    let money_delta = jobs_income as i64 - population_upkeep as i64;
    let new_money = stats.money + money_delta;
    let changed_now = total_population != stats.population || total_jobs != stats.jobs
        || money_delta != 0;
    stats.changed = stats.changed || changed_now;
    stats.population = total_population;
    stats.jobs = total_jobs;
    stats.money = new_money;
}

} // verus!
