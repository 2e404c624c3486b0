//! Zoning classifications and the click-driven transition between them.

use vstd::prelude::*;

verus! {

/// The zoning of one tile. A resolved click on a tile cycles its zone in
/// the fixed order Empty -> Road -> Residential -> Commercial ->
/// Industrial -> Empty; no other transition exists.
#[derive(Clone, Copy, PartialEq, Eq, Structural, Debug)]
pub enum Zone {
    Empty,
    Road,
    Residential,
    Commercial,
    Industrial,
}

/// The successor of a zone in the click cycle.
pub open spec fn spec_next(z: Zone) -> Zone {
    match z {
        Zone::Empty => Zone::Road,
        Zone::Road => Zone::Residential,
        Zone::Residential => Zone::Commercial,
        Zone::Commercial => Zone::Industrial,
        Zone::Industrial => Zone::Empty,
    }
}

/// The index of a zone's sprite in the tile atlas used by the
/// presentation layer.
pub open spec fn spec_sprite_index(z: Zone) -> int {
    match z {
        Zone::Empty => 214,
        Zone::Road => 235,
        Zone::Residential => 8,
        Zone::Commercial => 19,
        Zone::Industrial => 53,
    }
}

impl Zone {
    /// Cycle to the next zone in the fixed click order.
    pub fn next(self) -> (r: Zone)
        ensures
            r == spec_next(self),
    {
        match self {
            Zone::Empty => Zone::Road,
            Zone::Road => Zone::Residential,
            Zone::Residential => Zone::Commercial,
            Zone::Commercial => Zone::Industrial,
            Zone::Industrial => Zone::Empty,
        }
    }

    /// Sprite index for this zone in the tile atlas.
    pub fn sprite_index(self) -> (r: usize)
        ensures
            r == spec_sprite_index(self),
    {
        match self {
            Zone::Empty => 214,
            Zone::Road => 235,
            Zone::Residential => 8,
            Zone::Commercial => 19,
            Zone::Industrial => 53,
        }
    }
}

/// Law: applying the click transition five times returns every zone to
/// itself (the cycle is complete and has length five).
pub proof fn lemma_zone_cycle(z: Zone)
    ensures
        spec_next(spec_next(spec_next(spec_next(spec_next(z))))) == z,
{
}

} // verus!
