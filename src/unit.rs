use vstd::prelude::*;

verus! {

/// A linear unit in which a ruler expresses distances.
#[derive(Clone, Copy, Debug, PartialEq, Eq, Structural)]
pub enum DistanceUnit {
    Kilometers,
    Miles,
    NauticalMiles,
    Meters,
    Yards,
    Feet,
    Inches,
}

/// How many of `u` make one kilometer, as an exact fraction
/// (numerator, denominator).
pub open spec fn units_per_kilometer(u: DistanceUnit) -> (nat, nat) {
    match u {
        DistanceUnit::Kilometers => (1, 1),
        // 1000 / 1609.344
        DistanceUnit::Miles => (1_000_000, 1_609_344),
        // 1000 / 1852
        DistanceUnit::NauticalMiles => (1000, 1852),
        DistanceUnit::Meters => (1000, 1),
        // 1000 / 0.9144
        DistanceUnit::Yards => (10_000_000, 9144),
        // 1000 / 0.3048
        DistanceUnit::Feet => (10_000_000, 3048),
        // 1000 / 0.0254
        DistanceUnit::Inches => (10_000_000, 254),
    }
}

impl DistanceUnit {
    /// The number of this unit in one kilometer, as an exact fraction
    /// `(numerator, denominator)` with a positive denominator.
    pub fn conversion_ratio_kilometers(&self) -> (r: (u64, u64))
        ensures
            r.0 as nat == units_per_kilometer(*self).0,
            r.1 as nat == units_per_kilometer(*self).1,
            r.1 > 0,
    {
        match self {
            DistanceUnit::Kilometers => (1, 1),
            DistanceUnit::Miles => (1_000_000, 1_609_344),
            DistanceUnit::NauticalMiles => (1000, 1852),
            DistanceUnit::Meters => (1000, 1),
            DistanceUnit::Yards => (10_000_000, 9144),
            DistanceUnit::Feet => (10_000_000, 3048),
            DistanceUnit::Inches => (10_000_000, 254),
        }
    }
}

} // verus!
