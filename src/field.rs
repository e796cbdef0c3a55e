//! Fixed-point normalized coordinates and sub-cell zone bucketing.
use vstd::prelude::*;

verus! {

/// Units in one whole normalized axis (the value `1.0`).
pub const UNIT: i64 = 10000;

/// Fraction of a cell (in units of `1 / UNIT`) at or below which an offset is low.
pub const LOW_EDGE: i64 = 3300;

/// Fraction of a cell (in units of `1 / UNIT`) from which an offset is high.
pub const HIGH_EDGE: i64 = 6600;

/// A normalized coordinate inside the play field.
pub open spec fn in_field(v: int) -> bool {
    0 <= v <= UNIT
}

/// `v` limited to `[lo, hi]`.
pub open spec fn clamp(v: int, lo: int, hi: int) -> int {
    if v < lo {
        lo
    } else if v > hi {
        hi
    } else {
        v
    }
}

/// Sub-cell offset class of a denormalized coordinate.
#[derive(Debug, Clone, Copy, PartialEq, Eq, Structural)]
pub enum Zone {
    Low,
    Mid,
    High,
}

impl Zone {
    /// Position of the zone in the order low, mid, high.
    pub open spec fn index(self) -> int {
        match self {
            Zone::Low => 0,
            Zone::Mid => 1,
            Zone::High => 2,
        }
    }

    pub fn offset(self) -> (r: u16)
        ensures
            r as int == self.index(),
    {
        match self {
            Zone::Low => 0,
            Zone::Mid => 1,
            Zone::High => 2,
        }
    }
}

/// The zone of a fractional cell offset `frac`, in units of `1 / UNIT` of a
/// cell: low up to and including `LOW_EDGE`, mid strictly between the edges,
/// high from `HIGH_EDGE` on.
pub open spec fn zone_of_fraction(frac: int) -> Zone {
    if frac <= LOW_EDGE {
        Zone::Low
    } else if frac < HIGH_EDGE {
        Zone::Mid
    } else {
        Zone::High
    }
}

/// The zone of a denormalized coordinate `d`, in units of `1 / UNIT` of a cell.
pub open spec fn zone_spec(d: int) -> Zone {
    zone_of_fraction(d % (UNIT as int))
}

/// Buckets the fractional part of the denormalized coordinate `d` (cells
/// times `UNIT`) into a zone.
pub fn zone(d: u64) -> (r: Zone)
    ensures
        r == zone_spec(d as int),
{
    let frac: u64 = d % (UNIT as u64);
    if frac <= LOW_EDGE as u64 {
        Zone::Low
    } else if frac < HIGH_EDGE as u64 {
        Zone::Mid
    } else {
        Zone::High
    }
}

/// Zone bucketing looks at the fractional part alone: whole cells added to a
/// coordinate leave its zone unchanged, and the fractional part lands in
/// exactly one zone, with the edge values going to low and high.
pub proof fn zone_depends_on_fraction(d: int, k: int)
    requires
        d >= 0,
        k >= 0,
    ensures
        zone_spec(d + k * (UNIT as int)) == zone_spec(d),
        zone_spec(d) == zone_of_fraction(d - (d / (UNIT as int)) * (UNIT as int)),
        0 <= d % (UNIT as int) < UNIT,
        (d % (UNIT as int) <= LOW_EDGE) <==> zone_spec(d) == Zone::Low,
        (LOW_EDGE < d % (UNIT as int) < HIGH_EDGE) <==> zone_spec(d) == Zone::Mid,
        (d % (UNIT as int) >= HIGH_EDGE) <==> zone_spec(d) == Zone::High,
        zone_of_fraction(LOW_EDGE as int) == Zone::Low,
        zone_of_fraction(HIGH_EDGE as int) == Zone::High,
{
    vstd::arithmetic::div_mod::lemma_mod_multiples_vanish(k, d, UNIT as int);
    assert(d + k * (UNIT as int) == (UNIT as int) * k + d) by (nonlinear_arith);
    vstd::arithmetic::div_mod::lemma_fundamental_div_mod(d, UNIT as int);
}

} // verus!
