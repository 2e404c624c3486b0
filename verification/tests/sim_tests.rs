use city_sim::grid::Grid;
use city_sim::sim::simulation_step;
use city_sim::stats::CityStats;
use city_sim::zone::Zone;

/// Clicks the tile at (x, y) until it reaches the wanted zone.
fn set_zone(g: &mut Grid, x: i32, y: i32, zone: Zone) {
    for _ in 0..5 {
        if g.zone_at(x as usize, y as usize) == zone {
            return;
        }
        g.click(x, y);
    }
    panic!("zone not reached");
}

#[test]
fn residential_next_to_road_gains_population() {
    // 3x3 grid, center Residential, the tile directly above is a Road.
    let mut g = Grid::new(3, 3);
    let mut stats = CityStats::new();
    set_zone(&mut g, 1, 1, Zone::Residential);
    set_zone(&mut g, 1, 2, Zone::Road);
    simulation_step(&mut g, &mut stats);
    let center = g.tile(1, 1);
    assert_eq!(center.population, 1);
    assert_eq!(center.jobs, 0);
    assert_eq!(stats.population, 1);
    assert_eq!(stats.jobs, 0);
    // money delta: floor(0 / 5) - floor(1 / 10) == 0
    assert_eq!(stats.money, 0);
}

#[test]
fn residential_without_road_stays_at_zero() {
    // Same grid but the neighbor stays Empty: population is unchanged.
    let mut g = Grid::new(3, 3);
    let mut stats = CityStats::new();
    set_zone(&mut g, 1, 1, Zone::Residential);
    simulation_step(&mut g, &mut stats);
    assert_eq!(g.tile(1, 1).population, 0);
    assert_eq!(stats.population, 0);
    assert_eq!(stats.jobs, 0);
    assert_eq!(stats.money, 0);
}

#[test]
fn single_industrial_three_ticks() {
    // A single Industrial tile: jobs == 3 after the third tick.
    let mut g = Grid::new(1, 1);
    let mut stats = CityStats::new();
    set_zone(&mut g, 0, 0, Zone::Industrial);
    for _ in 0..3 {
        simulation_step(&mut g, &mut stats);
    }
    assert_eq!(g.tile(0, 0).jobs, 3);
    assert_eq!(stats.jobs, 3);
    assert_eq!(stats.population, 0);
    assert_eq!(stats.money, 0);
}

#[test]
fn commercial_gains_one_job_per_tick() {
    let mut g = Grid::new(2, 1);
    let mut stats = CityStats::new();
    set_zone(&mut g, 0, 0, Zone::Commercial);
    simulation_step(&mut g, &mut stats);
    assert_eq!(g.tile(0, 0).jobs, 1);
    simulation_step(&mut g, &mut stats);
    assert_eq!(g.tile(0, 0).jobs, 2);
}

#[test]
fn jobs_saturate_at_one_hundred() {
    let mut g = Grid::new(1, 1);
    let mut stats = CityStats::new();
    set_zone(&mut g, 0, 0, Zone::Industrial);
    for _ in 0..150 {
        simulation_step(&mut g, &mut stats);
    }
    assert_eq!(g.tile(0, 0).jobs, 100);
    assert_eq!(stats.jobs, 100);
}

#[test]
fn population_saturates_at_one_hundred() {
    let mut g = Grid::new(2, 1);
    let mut stats = CityStats::new();
    set_zone(&mut g, 0, 0, Zone::Residential);
    set_zone(&mut g, 1, 0, Zone::Road);
    for _ in 0..150 {
        simulation_step(&mut g, &mut stats);
    }
    assert_eq!(g.tile(0, 0).population, 100);
    assert_eq!(stats.population, 100);
}

#[test]
fn road_resets_counters_on_next_tick() {
    // A tile that gained jobs and is then rezoned to Road drops to zero.
    let mut g = Grid::new(1, 1);
    let mut stats = CityStats::new();
    set_zone(&mut g, 0, 0, Zone::Industrial);
    simulation_step(&mut g, &mut stats);
    simulation_step(&mut g, &mut stats);
    assert_eq!(g.tile(0, 0).jobs, 2);
    set_zone(&mut g, 0, 0, Zone::Road);
    simulation_step(&mut g, &mut stats);
    assert_eq!(g.tile(0, 0).jobs, 0);
    assert_eq!(g.tile(0, 0).population, 0);
}

#[test]
fn empty_resets_counters_on_next_tick() {
    let mut g = Grid::new(1, 1);
    let mut stats = CityStats::new();
    set_zone(&mut g, 0, 0, Zone::Commercial);
    simulation_step(&mut g, &mut stats);
    assert_eq!(g.tile(0, 0).jobs, 1);
    set_zone(&mut g, 0, 0, Zone::Empty);
    simulation_step(&mut g, &mut stats);
    assert_eq!(g.tile(0, 0).jobs, 0);
    assert_eq!(g.tile(0, 0).population, 0);
}

#[test]
fn population_kept_after_road_removed() {
    // No decay: population gained while a road was adjacent is kept once
    // the road is gone, it only stops growing.
    let mut g = Grid::new(3, 3);
    let mut stats = CityStats::new();
    set_zone(&mut g, 1, 1, Zone::Residential);
    set_zone(&mut g, 1, 2, Zone::Road);
    simulation_step(&mut g, &mut stats);
    simulation_step(&mut g, &mut stats);
    assert_eq!(g.tile(1, 1).population, 2);
    set_zone(&mut g, 1, 2, Zone::Empty);
    simulation_step(&mut g, &mut stats);
    assert_eq!(g.tile(1, 1).population, 2);
}

#[test]
fn money_formula_exact() {
    // Five Commercial tiles on a 2x3 grid: one tick gives jobs == 5 and
    // money delta floor(5/5) - floor(0/10) == 1; a second tick gives
    // jobs == 10 and delta 2, so money == 3.
    let mut g = Grid::new(2, 3);
    let mut stats = CityStats::new();
    set_zone(&mut g, 0, 0, Zone::Commercial);
    set_zone(&mut g, 1, 0, Zone::Commercial);
    set_zone(&mut g, 0, 1, Zone::Commercial);
    set_zone(&mut g, 1, 1, Zone::Commercial);
    set_zone(&mut g, 0, 2, Zone::Commercial);
    simulation_step(&mut g, &mut stats);
    assert_eq!(stats.jobs, 5);
    assert_eq!(stats.money, 1);
    simulation_step(&mut g, &mut stats);
    assert_eq!(stats.jobs, 10);
    assert_eq!(stats.money, 3);
}

#[test]
fn money_upkeep_subtracts() {
    // Population 10 with no jobs: delta floor(0/5) - floor(10/10) == -1.
    let mut g = Grid::new(2, 1);
    let mut stats = CityStats::new();
    set_zone(&mut g, 0, 0, Zone::Residential);
    set_zone(&mut g, 1, 0, Zone::Road);
    for _ in 0..10 {
        simulation_step(&mut g, &mut stats);
    }
    assert_eq!(stats.population, 10);
    assert_eq!(stats.money, -1);
}

#[test]
fn updates_read_the_pre_tick_snapshot() {
    // A tile rezoned to Road is reset by the same tick, yet a Residential
    // neighbor already sees it as a Road of the pre-tick snapshot.
    let mut g = Grid::new(2, 1);
    let mut stats = CityStats::new();
    set_zone(&mut g, 0, 0, Zone::Residential);
    set_zone(&mut g, 1, 0, Zone::Road);
    simulation_step(&mut g, &mut stats);
    assert_eq!(g.tile(0, 0).population, 1);
    assert_eq!(g.tile(1, 0).population, 0);
    assert_eq!(g.tile(1, 0).jobs, 0);
}

#[test]
fn change_flag_raised_only_on_actual_change() {
    let mut g = Grid::new(1, 1);
    let mut stats = CityStats::new();
    assert!(!stats.take_changed());
    // An all-Empty tick changes no value.
    simulation_step(&mut g, &mut stats);
    assert!(!stats.take_changed());
    set_zone(&mut g, 0, 0, Zone::Industrial);
    simulation_step(&mut g, &mut stats);
    assert!(stats.take_changed());
    // take_changed cleared the flag.
    assert!(!stats.take_changed());
}
