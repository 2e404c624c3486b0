//! City-wide aggregate statistics and their change notification.

use vstd::prelude::*;
use vstd::string::StringExecFns;

use crate::text::{dec_str, int_str, i64_to_string, u32_to_string};

verus! {

/// The line handed to the text sink for given totals.
pub open spec fn stats_line(population: nat, jobs: nat, money: int) -> Seq<char> {
    "Pop: "@ + dec_str(population) + "  Jobs: "@ + dec_str(jobs) + "  Money: "@ + int_str(money)
}

/// Aggregate city statistics. `population` and `jobs` are overwritten by
/// every tick with the totals over all tiles; `money` accumulates a delta
/// each tick and is never reset. `changed` is raised whenever a tick
/// alters one of the three values and cleared when the presentation layer
/// observes it, so text is re-rendered only on an actual change.
pub struct CityStats {
    pub population: u32,
    pub jobs: u32,
    pub money: i64,
    pub changed: bool,
}

impl Default for CityStats {
    /// The statistics at startup: all values zero, nothing to observe.
    fn default() -> (s: CityStats)
        ensures
            s.population == 0,
            s.jobs == 0,
            s.money == 0,
            !s.changed,
    {
        CityStats { population: 0, jobs: 0, money: 0, changed: false }
    }
}

impl CityStats {
    /// The statistics at startup: all values zero, nothing to observe.
    pub fn new() -> (s: CityStats)
        ensures
            s.population == 0,
            s.jobs == 0,
            s.money == 0,
            !s.changed,
    {
        CityStats { population: 0, jobs: 0, money: 0, changed: false }
    }

    /// Observe the change flag and clear it, leaving the values alone.
    /// The presentation layer re-renders exactly when this returns true.
    pub fn take_changed(&mut self) -> (r: bool)
        ensures
            r == old(self).changed,
            !final(self).changed,
            final(self).population == old(self).population,
            final(self).jobs == old(self).jobs,
            final(self).money == old(self).money,
    {
        let r = self.changed;
        self.changed = false;
        r
    }

    /// The formatted stats line for the text sink:
    /// `Pop: {population}  Jobs: {jobs}  Money: {money}`.
    pub fn stats_text(&self) -> (r: String)
        ensures
            r@ == stats_line(self.population as nat, self.jobs as nat, self.money as int),
    {
        let mut s = String::from_str("Pop: ");
        s.append(u32_to_string(self.population).as_str());
        s.append("  Jobs: ");
        s.append(u32_to_string(self.jobs).as_str());
        s.append("  Money: ");
        s.append(i64_to_string(self.money).as_str());
        s
    }
}

} // verus!
