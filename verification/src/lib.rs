//! Core of a grid-based city-building toy simulation.
//!
//! A fixed grid of tiles carries a zoning classification and two counters
//! (population and jobs). Clicks cycle a tile's zone; a periodic tick
//! recomputes every tile's counters from a snapshot of the pre-tick grid,
//! overwrites the city-wide totals, and accumulates a money delta.

pub mod grid;
pub mod sim;
pub mod stats;
pub mod text;
pub mod timer;
pub mod zone;
