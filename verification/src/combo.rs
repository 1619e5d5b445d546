//! Combining a date/time field set with a zone field set into one
//! composite field set.

use vstd::prelude::*;

verus! {

/// A composite field set: date/time fields paired with zone fields.
#[derive(Debug, Copy, Clone, PartialEq, Eq)]
pub struct Combo<DT, Z> {
    date_time_field_set: DT,
    zone_field_set: Z,
}

impl<DT, Z> Combo<DT, Z> {
    /// The date/time half of the pair.
    pub closed spec fn spec_dt(self) -> DT {
        self.date_time_field_set
    }

    /// The zone half of the pair.
    pub closed spec fn spec_z(self) -> Z {
        self.zone_field_set
    }

    /// Pairs a date/time field set with a zone field set.
    pub fn new(date_time_field_set: DT, zone_field_set: Z) -> (r: Self)
        ensures
            r.spec_dt() == date_time_field_set,
            r.spec_z() == zone_field_set,
    {
        Combo { date_time_field_set, zone_field_set }
    }

    /// The date/time half of the pair.
    pub fn dt(self) -> (r: DT)
        ensures
            r == self.spec_dt(),
    {
        self.date_time_field_set
    }

    /// The zone half of the pair.
    pub fn z(self) -> (r: Z)
        ensures
            r == self.spec_z(),
    {
        self.zone_field_set
    }
}

} // verus!
