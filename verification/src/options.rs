//! Classic length options for dates and times, kept for conversion into
//! the component-based skeletons.

use vstd::prelude::*;

verus! {

/// A classic date length.
#[derive(Debug, Copy, Clone, PartialEq, Eq, Structural)]
pub enum Date {
    /// A full-length date, including the weekday.
    Full,
    /// A long date, typically spelled out.
    Long,
    /// A medium date, typically abbreviated.
    Medium,
    /// A short date, typically numeric.
    Short,
}

/// A classic time length.
#[derive(Debug, Copy, Clone, PartialEq, Eq, Structural)]
pub enum Time {
    /// A full-length time, including the full zone name.
    Full,
    /// A long time, including the zone.
    Long,
    /// A medium time, with hour, minute and second.
    Medium,
    /// A short time, with hour and minute.
    Short,
}

} // verus!
