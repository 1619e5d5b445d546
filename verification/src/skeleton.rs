//! Semantic skeletons: abstract sets of requested datetime components,
//! their stable identifier strings, and the presence queries the rest of
//! the system asks of them.

use vstd::prelude::*;
use crate::options;

verus! {

/// Equality of two string slices by their characters.
fn str_eq(a: &str, b: &str) -> (r: bool)
    ensures
        r == (a@ == b@),
{
    let a_len = a.unicode_len();
    let b_len = b.unicode_len();
    if a_len != b_len {
        proof {
            assert(a@ != b@);
        }
        return false;
    }
    let mut i: usize = 0;
    while i < a_len
        invariant
            i <= a_len,
            a_len == a@.len(),
            a_len == b@.len(),
            forall|j: int| 0 <= j < i ==> a@[j] == b@[j],
        decreases a_len - i,
    {
        if a.get_char(i) != b.get_char(i) {
            proof {
                assert(a@[i as int] != b@[i as int]);
            }
            return false;
        }
        i += 1;
    }
    proof {
        assert(a@ =~= b@);
    }
    true
}

/// A specification for the length of a date or a component of a date:
/// three levels, the widest typically spelled out, the narrowest numeric.
#[derive(Debug, Copy, Clone, PartialEq, Eq, Structural, Hash)]
pub enum NeoSkeletonLength {
    /// A long date, typically spelled out.
    Long,
    /// A medium date, typically abbreviated.
    Medium,
    /// A short date, typically numeric.
    Short,
}

impl NeoSkeletonLength {
    /// The classic date length this length corresponds to.
    pub fn to_date_style(self) -> (r: options::Date)
        ensures
            r == (match self {
                NeoSkeletonLength::Long => options::Date::Long,
                NeoSkeletonLength::Medium => options::Date::Medium,
                NeoSkeletonLength::Short => options::Date::Short,
            }),
    {
        match self {
            NeoSkeletonLength::Long => options::Date::Long,
            NeoSkeletonLength::Medium => options::Date::Medium,
            NeoSkeletonLength::Short => options::Date::Short,
        }
    }

    /// The classic time length this length corresponds to: the long and
    /// the medium length both map to the medium time.
    pub fn to_time_style(self) -> (r: options::Time)
        ensures
            r == (match self {
                NeoSkeletonLength::Short => options::Time::Short,
                _ => options::Time::Medium,
            }),
    {
        match self {
            NeoSkeletonLength::Long => options::Time::Medium,
            NeoSkeletonLength::Medium => options::Time::Medium,
            NeoSkeletonLength::Short => options::Time::Short,
        }
    }
}

/// The alignment context of the formatted string.
#[derive(Debug, Copy, Clone, PartialEq, Eq, Structural, Hash)]
pub enum Alignment {
    /// Align fields as the locale specifies.
    Auto,
    /// Align fields for a column layout: numeric fields are padded.
    Column,
}

/// How to render the year and the era.
#[derive(Debug, Copy, Clone, PartialEq, Eq, Structural, Hash)]
pub enum YearStyle {
    /// Century and era only when needed to disambiguate.
    Auto,
    /// Always the century; the era only when needed.
    Full,
    /// Always the century and the era.
    Always,
}

/// How many fractional-second digits to display; lower precision is
/// truncated, never rounded.
#[derive(Debug, Copy, Clone, PartialEq, Eq, Structural, Hash)]
pub enum FractionalSecondDigits {
    F0,
    F1,
    F2,
    F3,
    F4,
    F5,
    F6,
    F7,
    F8,
    F9,
}

/// An error from constructing [`FractionalSecondDigits`].
#[derive(Debug, Copy, Clone, PartialEq, Eq, Structural)]
pub enum FractionalSecondError {
    /// The provided value is out of the range 0 to 9.
    OutOfRange,
}

impl FractionalSecondDigits {
    /// The numeric value of the digit count.
    pub fn to_u8(self) -> (r: u8)
        ensures
            r == self.spec_u8(),
            r <= 9,
    {
        match self {
            FractionalSecondDigits::F0 => 0,
            FractionalSecondDigits::F1 => 1,
            FractionalSecondDigits::F2 => 2,
            FractionalSecondDigits::F3 => 3,
            FractionalSecondDigits::F4 => 4,
            FractionalSecondDigits::F5 => 5,
            FractionalSecondDigits::F6 => 6,
            FractionalSecondDigits::F7 => 7,
            FractionalSecondDigits::F8 => 8,
            FractionalSecondDigits::F9 => 9,
        }
    }

    pub open spec fn spec_u8(self) -> u8 {
        match self {
            FractionalSecondDigits::F0 => 0u8,
            FractionalSecondDigits::F1 => 1u8,
            FractionalSecondDigits::F2 => 2u8,
            FractionalSecondDigits::F3 => 3u8,
            FractionalSecondDigits::F4 => 4u8,
            FractionalSecondDigits::F5 => 5u8,
            FractionalSecondDigits::F6 => 6u8,
            FractionalSecondDigits::F7 => 7u8,
            FractionalSecondDigits::F8 => 8u8,
            FractionalSecondDigits::F9 => 9u8,
        }
    }

    /// The digit count for a numeric value, or out-of-range beyond 9.
    /// Exactly the values 0 to 9 convert, and conversion inverts
    /// [`FractionalSecondDigits::to_u8`].
    pub fn try_from_u8(value: u8) -> (r: Result<Self, FractionalSecondError>)
        ensures
            value <= 9 ==> (r matches Ok(d) && d.spec_u8() == value),
            value > 9 ==> r == Err::<Self, FractionalSecondError>(
                FractionalSecondError::OutOfRange,
            ),
    {
        match value {
            0 => Ok(FractionalSecondDigits::F0),
            1 => Ok(FractionalSecondDigits::F1),
            2 => Ok(FractionalSecondDigits::F2),
            3 => Ok(FractionalSecondDigits::F3),
            4 => Ok(FractionalSecondDigits::F4),
            5 => Ok(FractionalSecondDigits::F5),
            6 => Ok(FractionalSecondDigits::F6),
            7 => Ok(FractionalSecondDigits::F7),
            8 => Ok(FractionalSecondDigits::F8),
            9 => Ok(FractionalSecondDigits::F9),
            _ => Err(FractionalSecondError::OutOfRange),
        }
    }
}

/// A set of parts of a date naming a single day.
#[derive(Debug, Copy, Clone, PartialEq, Eq, Structural, Hash)]
pub enum NeoDateComponents {
    /// The day of the month alone.
    Day,
    /// The month and the day of the month.
    MonthDay,
    /// The year, the month, and the day of the month.
    YearMonthDay,
    /// The day of the month and the weekday.
    DayWeekday,
    /// The month, the day of the month, and the weekday.
    MonthDayWeekday,
    /// The year, the month, the day of the month, and the weekday.
    YearMonthDayWeekday,
    /// The weekday alone.
    Weekday,
    /// The fields of the locale's standard date pattern.
    Auto,
    /// The fields of the locale's standard date pattern, with a weekday.
    AutoWeekday,
}

impl NeoDateComponents {
    /// A stable string identifying this set of components.
    pub fn id_str(self) -> (r: &'static str)
        ensures
            r@ == self.spec_id_str(),
    {
        match self {
            NeoDateComponents::Day => "d",
            NeoDateComponents::MonthDay => "m0d",
            NeoDateComponents::YearMonthDay => "ym0d",
            NeoDateComponents::DayWeekday => "de",
            NeoDateComponents::MonthDayWeekday => "m0de",
            NeoDateComponents::YearMonthDayWeekday => "ym0de",
            NeoDateComponents::Weekday => "e",
            NeoDateComponents::Auto => "a1",
            NeoDateComponents::AutoWeekday => "a1e",
        }
    }

    pub open spec fn spec_id_str(self) -> Seq<char> {
        match self {
            NeoDateComponents::Day => "d"@,
            NeoDateComponents::MonthDay => "m0d"@,
            NeoDateComponents::YearMonthDay => "ym0d"@,
            NeoDateComponents::DayWeekday => "de"@,
            NeoDateComponents::MonthDayWeekday => "m0de"@,
            NeoDateComponents::YearMonthDayWeekday => "ym0de"@,
            NeoDateComponents::Weekday => "e"@,
            NeoDateComponents::Auto => "a1"@,
            NeoDateComponents::AutoWeekday => "a1e"@,
        }
    }

    /// The set of components a stable string identifies, the inverse of
    /// [`NeoDateComponents::id_str`].
    pub fn from_id_str(id_str: &str) -> (r: Option<Self>)
        ensures
            match r {
                Some(c) => c.spec_id_str() == id_str@,
                None => forall|c: NeoDateComponents| c.spec_id_str() != id_str@,
            },
    {
        if str_eq(id_str, "d") {
            Some(NeoDateComponents::Day)
        } else if str_eq(id_str, "m0d") {
            Some(NeoDateComponents::MonthDay)
        } else if str_eq(id_str, "ym0d") {
            Some(NeoDateComponents::YearMonthDay)
        } else if str_eq(id_str, "de") {
            Some(NeoDateComponents::DayWeekday)
        } else if str_eq(id_str, "m0de") {
            Some(NeoDateComponents::MonthDayWeekday)
        } else if str_eq(id_str, "ym0de") {
            Some(NeoDateComponents::YearMonthDayWeekday)
        } else if str_eq(id_str, "e") {
            Some(NeoDateComponents::Weekday)
        } else if str_eq(id_str, "a1") {
            Some(NeoDateComponents::Auto)
        } else if str_eq(id_str, "a1e") {
            Some(NeoDateComponents::AutoWeekday)
        } else {
            proof {
                assert forall|c: NeoDateComponents| c.spec_id_str() != id_str@ by {}
            }
            None
        }
    }

    /// Whether this field set contains the year.
    pub open spec fn spec_has_year(self) -> bool {
        self is YearMonthDay || self is YearMonthDayWeekday || self is Auto || self is AutoWeekday
    }

    /// Whether this field set contains the year.
    pub fn has_year(self) -> (r: bool)
        ensures
            r == self.spec_has_year(),
    {
        matches!(
            self,
            NeoDateComponents::YearMonthDay | NeoDateComponents::YearMonthDayWeekday
                | NeoDateComponents::Auto | NeoDateComponents::AutoWeekday,
        )
    }

    /// Whether this field set contains the month.
    pub open spec fn spec_has_month(self) -> bool {
        !(self is Day || self is DayWeekday || self is Weekday)
    }

    /// Whether this field set contains the month.
    pub fn has_month(self) -> (r: bool)
        ensures
            r == self.spec_has_month(),
    {
        !matches!(
            self,
            NeoDateComponents::Day | NeoDateComponents::DayWeekday | NeoDateComponents::Weekday,
        )
    }

    /// Whether this field set contains the day of the month.
    pub fn has_day(self) -> (r: bool)
        ensures
            r == !matches!(self, NeoDateComponents::Weekday),
    {
        !matches!(self, NeoDateComponents::Weekday)
    }

    /// Whether this field set contains the weekday.
    pub open spec fn spec_has_weekday(self) -> bool {
        self is DayWeekday || self is MonthDayWeekday || self is YearMonthDayWeekday
            || self is Weekday || self is AutoWeekday
    }

    /// Whether this field set contains the weekday.
    pub fn has_weekday(self) -> (r: bool)
        ensures
            r == self.spec_has_weekday(),
    {
        matches!(
            self,
            NeoDateComponents::DayWeekday | NeoDateComponents::MonthDayWeekday
                | NeoDateComponents::YearMonthDayWeekday | NeoDateComponents::Weekday
                | NeoDateComponents::AutoWeekday,
        )
    }
}

/// A set of parts of a date naming a whole calendar period.
#[derive(Debug, Copy, Clone, PartialEq, Eq, Structural, Hash)]
pub enum NeoCalendarPeriodComponents {
    /// A stand-alone month.
    Month,
    /// A month and a year.
    YearMonth,
    /// A year.
    Year,
    /// A year and a week of the year.
    YearWeek,
}

impl NeoCalendarPeriodComponents {
    /// A stable string identifying this set of components.
    pub fn id_str(self) -> (r: &'static str)
        ensures
            r@ == self.spec_id_str(),
    {
        match self {
            NeoCalendarPeriodComponents::Month => "m0",
            NeoCalendarPeriodComponents::YearMonth => "ym0",
            NeoCalendarPeriodComponents::Year => "y",
            NeoCalendarPeriodComponents::YearWeek => "y0w",
        }
    }

    pub open spec fn spec_id_str(self) -> Seq<char> {
        match self {
            NeoCalendarPeriodComponents::Month => "m0"@,
            NeoCalendarPeriodComponents::YearMonth => "ym0"@,
            NeoCalendarPeriodComponents::Year => "y"@,
            NeoCalendarPeriodComponents::YearWeek => "y0w"@,
        }
    }

    /// The set of components a stable string identifies.
    pub fn from_id_str(id_str: &str) -> (r: Option<Self>)
        ensures
            match r {
                Some(c) => c.spec_id_str() == id_str@,
                None => forall|c: NeoCalendarPeriodComponents| c.spec_id_str() != id_str@,
            },
    {
        if str_eq(id_str, "m0") {
            Some(NeoCalendarPeriodComponents::Month)
        } else if str_eq(id_str, "ym0") {
            Some(NeoCalendarPeriodComponents::YearMonth)
        } else if str_eq(id_str, "y") {
            Some(NeoCalendarPeriodComponents::Year)
        } else if str_eq(id_str, "y0w") {
            Some(NeoCalendarPeriodComponents::YearWeek)
        } else {
            proof {
                assert forall|c: NeoCalendarPeriodComponents| c.spec_id_str() != id_str@ by {}
            }
            None
        }
    }

    /// Whether this field set contains the year.
    pub fn has_year(self) -> (r: bool)
        ensures
            r == !matches!(self, NeoCalendarPeriodComponents::Month),
    {
        !matches!(self, NeoCalendarPeriodComponents::Month)
    }

    /// Whether this field set contains the month.
    pub fn has_month(self) -> (r: bool)
        ensures
            r == matches!(
                self,
                NeoCalendarPeriodComponents::Month | NeoCalendarPeriodComponents::YearMonth,
            ),
    {
        matches!(
            self,
            NeoCalendarPeriodComponents::Month | NeoCalendarPeriodComponents::YearMonth,
        )
    }
}

/// A coarse division of the hour cycles: the twelve-hour cycles against
/// the twenty-four-hour cycles.
#[derive(Debug, Copy, Clone, PartialEq, Eq, Structural)]
pub enum CoarseHourCycle {
    /// Hours 0 to 11 or 1 to 12.
    H11H12,
    /// Hours 0 to 23 or 1 to 24.
    H23H24,
}

/// A set of parts of a time.
#[derive(Debug, Copy, Clone, PartialEq, Eq, Structural, Hash)]
pub enum NeoTimeComponents {
    /// An hour, cycle chosen by the locale.
    Hour,
    /// An hour and minute, cycle chosen by the locale.
    HourMinute,
    /// An hour, minute, and second, cycle chosen by the locale.
    HourMinuteSecond,
    /// An hour with a twelve-hour clock and day period.
    DayPeriodHour12,
    /// An hour with a twelve-hour clock.
    Hour12,
    /// An hour and minute with a twelve-hour clock and day period.
    DayPeriodHour12Minute,
    /// An hour and minute with a twelve-hour clock.
    Hour12Minute,
    /// An hour, minute, and second with a twelve-hour clock and day
    /// period.
    DayPeriodHour12MinuteSecond,
    /// An hour, minute, and second with a twelve-hour clock.
    Hour12MinuteSecond,
    /// An hour with a twenty-four-hour clock.
    Hour24,
    /// An hour and minute with a twenty-four-hour clock.
    Hour24Minute,
    /// An hour, minute, and second with a twenty-four-hour clock.
    Hour24MinuteSecond,
    /// The fields of the locale's standard time pattern.
    Auto,
}

impl NeoTimeComponents {
    /// A stable string identifying this set of components.
    pub fn id_str(self) -> (r: &'static str)
        ensures
            r@ == self.spec_id_str(),
    {
        match self {
            NeoTimeComponents::Hour => "j",
            NeoTimeComponents::HourMinute => "jm",
            NeoTimeComponents::HourMinuteSecond => "jms",
            NeoTimeComponents::DayPeriodHour12 => "bh",
            NeoTimeComponents::Hour12 => "h",
            NeoTimeComponents::DayPeriodHour12Minute => "bhm",
            NeoTimeComponents::Hour12Minute => "hm",
            NeoTimeComponents::DayPeriodHour12MinuteSecond => "bhms",
            NeoTimeComponents::Hour12MinuteSecond => "hms",
            NeoTimeComponents::Hour24 => "h0",
            NeoTimeComponents::Hour24Minute => "h0m",
            NeoTimeComponents::Hour24MinuteSecond => "h0ms",
            NeoTimeComponents::Auto => "a1",
        }
    }

    pub open spec fn spec_id_str(self) -> Seq<char> {
        match self {
            NeoTimeComponents::Hour => "j"@,
            NeoTimeComponents::HourMinute => "jm"@,
            NeoTimeComponents::HourMinuteSecond => "jms"@,
            NeoTimeComponents::DayPeriodHour12 => "bh"@,
            NeoTimeComponents::Hour12 => "h"@,
            NeoTimeComponents::DayPeriodHour12Minute => "bhm"@,
            NeoTimeComponents::Hour12Minute => "hm"@,
            NeoTimeComponents::DayPeriodHour12MinuteSecond => "bhms"@,
            NeoTimeComponents::Hour12MinuteSecond => "hms"@,
            NeoTimeComponents::Hour24 => "h0"@,
            NeoTimeComponents::Hour24Minute => "h0m"@,
            NeoTimeComponents::Hour24MinuteSecond => "h0ms"@,
            NeoTimeComponents::Auto => "a1"@,
        }
    }

    /// The set of components a stable string identifies.
    pub fn from_id_str(id_str: &str) -> (r: Option<Self>)
        ensures
            match r {
                Some(c) => c.spec_id_str() == id_str@,
                None => forall|c: NeoTimeComponents| c.spec_id_str() != id_str@,
            },
    {
        if str_eq(id_str, "j") {
            Some(NeoTimeComponents::Hour)
        } else if str_eq(id_str, "jm") {
            Some(NeoTimeComponents::HourMinute)
        } else if str_eq(id_str, "jms") {
            Some(NeoTimeComponents::HourMinuteSecond)
        } else if str_eq(id_str, "bh") {
            Some(NeoTimeComponents::DayPeriodHour12)
        } else if str_eq(id_str, "h") {
            Some(NeoTimeComponents::Hour12)
        } else if str_eq(id_str, "bhm") {
            Some(NeoTimeComponents::DayPeriodHour12Minute)
        } else if str_eq(id_str, "hm") {
            Some(NeoTimeComponents::Hour12Minute)
        } else if str_eq(id_str, "bhms") {
            Some(NeoTimeComponents::DayPeriodHour12MinuteSecond)
        } else if str_eq(id_str, "hms") {
            Some(NeoTimeComponents::Hour12MinuteSecond)
        } else if str_eq(id_str, "h0") {
            Some(NeoTimeComponents::Hour24)
        } else if str_eq(id_str, "h0m") {
            Some(NeoTimeComponents::Hour24Minute)
        } else if str_eq(id_str, "h0ms") {
            Some(NeoTimeComponents::Hour24MinuteSecond)
        } else if str_eq(id_str, "a1") {
            Some(NeoTimeComponents::Auto)
        } else {
            proof {
                assert forall|c: NeoTimeComponents| c.spec_id_str() != id_str@ by {}
            }
            None
        }
    }

    /// The same components with the hour cycle pinned down, where the
    /// components left it to the locale.
    pub fn with_hour_cycle(self, hour_cycle: CoarseHourCycle) -> (r: Self)
        ensures
            r == (match (self, hour_cycle) {
                (NeoTimeComponents::Hour, CoarseHourCycle::H11H12) => NeoTimeComponents::Hour12,
                (
                    NeoTimeComponents::HourMinute,
                    CoarseHourCycle::H11H12,
                ) => NeoTimeComponents::Hour12Minute,
                (
                    NeoTimeComponents::HourMinuteSecond,
                    CoarseHourCycle::H11H12,
                ) => NeoTimeComponents::Hour12MinuteSecond,
                (NeoTimeComponents::Hour, CoarseHourCycle::H23H24) => NeoTimeComponents::Hour24,
                (
                    NeoTimeComponents::HourMinute,
                    CoarseHourCycle::H23H24,
                ) => NeoTimeComponents::Hour24Minute,
                (
                    NeoTimeComponents::HourMinuteSecond,
                    CoarseHourCycle::H23H24,
                ) => NeoTimeComponents::Hour24MinuteSecond,
                _ => self,
            }),
    {
        match (self, hour_cycle) {
            (NeoTimeComponents::Hour, CoarseHourCycle::H11H12) => NeoTimeComponents::Hour12,
            (NeoTimeComponents::HourMinute, CoarseHourCycle::H11H12) => NeoTimeComponents::Hour12Minute,
            (
                NeoTimeComponents::HourMinuteSecond,
                CoarseHourCycle::H11H12,
            ) => NeoTimeComponents::Hour12MinuteSecond,
            (NeoTimeComponents::Hour, CoarseHourCycle::H23H24) => NeoTimeComponents::Hour24,
            (NeoTimeComponents::HourMinute, CoarseHourCycle::H23H24) => NeoTimeComponents::Hour24Minute,
            (
                NeoTimeComponents::HourMinuteSecond,
                CoarseHourCycle::H23H24,
            ) => NeoTimeComponents::Hour24MinuteSecond,
            _ => self,
        }
    }

    /// The nearest components for a classic time length.  The full and
    /// the long lengths carry a zone and have no component counterpart
    /// yet: they are left out.
    pub fn from_time_length(time_length: options::Time) -> (r: Self)
        requires
            matches!(time_length, options::Time::Medium | options::Time::Short),
        ensures
            r == (match time_length {
                options::Time::Short => NeoTimeComponents::HourMinute,
                _ => NeoTimeComponents::HourMinuteSecond,
            }),
    {
        match time_length {
            options::Time::Medium => NeoTimeComponents::HourMinuteSecond,
            _ => NeoTimeComponents::HourMinute,
        }
    }

    /// Whether this field set contains the hour: every set does.
    pub fn has_hour(self) -> (r: bool)
        ensures
            r,
    {
        true
    }

    /// Whether this field set contains the minute.
    pub open spec fn spec_has_minute(self) -> bool {
        self is HourMinute || self is Hour12Minute || self is Hour24Minute
            || self is HourMinuteSecond || self is Hour12MinuteSecond
            || self is Hour24MinuteSecond
    }

    /// Whether this field set contains the minute.
    pub fn has_minute(self) -> (r: bool)
        ensures
            r == self.spec_has_minute(),
    {
        matches!(
            self,
            NeoTimeComponents::HourMinute | NeoTimeComponents::Hour12Minute
                | NeoTimeComponents::Hour24Minute | NeoTimeComponents::HourMinuteSecond
                | NeoTimeComponents::Hour12MinuteSecond | NeoTimeComponents::Hour24MinuteSecond,
        )
    }

    /// Whether this field set contains the second.
    pub open spec fn spec_has_second(self) -> bool {
        self is HourMinuteSecond || self is Hour12MinuteSecond || self is Hour24MinuteSecond
    }

    /// Whether this field set contains the second.
    pub fn has_second(self) -> (r: bool)
        ensures
            r == self.spec_has_second(),
    {
        matches!(
            self,
            NeoTimeComponents::HourMinuteSecond | NeoTimeComponents::Hour12MinuteSecond
                | NeoTimeComponents::Hour24MinuteSecond,
        )
    }
}

/// A set of components for parts of a datetime.
#[derive(Debug, Copy, Clone, PartialEq, Eq, Structural, Hash)]
pub enum NeoDateTimeComponents {
    /// Parts of a date.
    Date(NeoDateComponents),
    /// Parts of a time.
    Time(NeoTimeComponents),
    /// Parts of a date and a time together.
    DateTime(NeoDateComponents, NeoTimeComponents),
}

/// The time-zone display style.
#[derive(Debug, Copy, Clone, PartialEq, Eq, Structural, Hash)]
pub enum NeoTimeZoneStyle {
    /// Whatever of the location and the specific non-location formats is
    /// idiomatic for the locale.
    Default,
    /// The location format; falls back to the offset.
    Location,
    /// The generic non-location format; falls back to the location.
    Generic,
    /// The specific non-location format; falls back to the offset.
    Specific,
    /// The offset format.
    Offset,
}

impl Default for NeoTimeZoneStyle {
    fn default() -> (r: Self)
        ensures
            r == NeoTimeZoneStyle::Default,
    {
        NeoTimeZoneStyle::Default
    }
}

/// A set of components for parts of a datetime and/or a time zone.
#[derive(Debug, Copy, Clone, PartialEq, Eq, Structural, Hash)]
pub enum NeoComponents {
    /// Parts of a date.
    Date(NeoDateComponents),
    /// Parts of a calendar period.
    CalendarPeriod(NeoCalendarPeriodComponents),
    /// Parts of a time.
    Time(NeoTimeComponents),
    /// Parts of a time zone.
    Zone(NeoTimeZoneStyle),
    /// Parts of a date and a time together.
    DateTime(NeoDateComponents, NeoTimeComponents),
    /// Parts of a date and a time zone together.
    DateZone(NeoDateComponents, NeoTimeZoneStyle),
    /// Parts of a time and a time zone together.
    TimeZone(NeoTimeComponents, NeoTimeZoneStyle),
    /// Parts of a date, a time, and a time zone together.
    DateTimeZone(NeoDateComponents, NeoTimeComponents, NeoTimeZoneStyle),
}

impl NeoComponents {
    /// Whether the date part of this field set can answer the presence
    /// queries about dates: the combinations whose answer is committed.
    pub open spec fn date_queries_supported(self) -> bool {
        !(self is Time || self is Zone || self is TimeZone)
    }

    /// A stable string identifying this field set, for the field sets
    /// that carry their own pattern override.
    pub fn id_str(self) -> (r: Option<&'static str>)
        ensures
            match r {
                Some(s) => s@ == (match self {
                    NeoComponents::DateTime(
                        NeoDateComponents::Weekday,
                        NeoTimeComponents::HourMinute,
                    ) => "ejm"@,
                    _ => "ejms"@,
                }),
                None => true,
            },
            r is Some <==> (self == NeoComponents::DateTime(
                NeoDateComponents::Weekday,
                NeoTimeComponents::HourMinute,
            ) || self == NeoComponents::DateTime(
                NeoDateComponents::Weekday,
                NeoTimeComponents::HourMinuteSecond,
            )),
    {
        match self {
            NeoComponents::DateTime(
                NeoDateComponents::Weekday,
                NeoTimeComponents::HourMinute,
            ) => Some("ejm"),
            NeoComponents::DateTime(
                NeoDateComponents::Weekday,
                NeoTimeComponents::HourMinuteSecond,
            ) => Some("ejms"),
            _ => None,
        }
    }

    /// The field set a stable string identifies, for the field sets that
    /// carry their own pattern override.
    pub fn from_id_str(id_str: &str) -> (r: Option<Self>)
        ensures
            id_str@ == "ejm"@ ==> r == Some(
                NeoComponents::DateTime(NeoDateComponents::Weekday, NeoTimeComponents::HourMinute),
            ),
            id_str@ == "ejms"@ ==> r == Some(
                NeoComponents::DateTime(
                    NeoDateComponents::Weekday,
                    NeoTimeComponents::HourMinuteSecond,
                ),
            ),
            id_str@ != "ejm"@ && id_str@ != "ejms"@ ==> r is None,
    {
        proof {
            reveal_strlit("ejm");
            reveal_strlit("ejms");
            assert("ejm"@.len() == 3);
            assert("ejms"@.len() == 4);
            assert("ejm"@ != "ejms"@);
        }
        if str_eq(id_str, "ejm") {
            Some(NeoComponents::DateTime(NeoDateComponents::Weekday, NeoTimeComponents::HourMinute))
        } else if str_eq(id_str, "ejms") {
            Some(
                NeoComponents::DateTime(
                    NeoDateComponents::Weekday,
                    NeoTimeComponents::HourMinuteSecond,
                ),
            )
        } else {
            None
        }
    }

    /// Whether this field set contains the year.  Pure time and zone
    /// sets do not commit an answer and are left out.
    pub fn has_year(self) -> (r: bool)
        requires
            self.date_queries_supported(),
        ensures
            r == (match self {
                NeoComponents::Date(d) => d.spec_has_year(),
                NeoComponents::CalendarPeriod(c) => !(c is Month),
                NeoComponents::DateTime(d, _) => d.spec_has_year(),
                NeoComponents::DateZone(d, _) => d.spec_has_year(),
                NeoComponents::DateTimeZone(d, _, _) => d.spec_has_year(),
                _ => false,
            }),
    {
        match self {
            NeoComponents::Date(d) => d.has_year(),
            NeoComponents::CalendarPeriod(c) => c.has_year(),
            NeoComponents::DateTime(d, _) => d.has_year(),
            NeoComponents::DateZone(d, _) => d.has_year(),
            NeoComponents::DateTimeZone(d, _, _) => d.has_year(),
            _ => false,
        }
    }

    /// Whether this field set contains the month.
    pub fn has_month(self) -> (r: bool)
        requires
            self.date_queries_supported(),
        ensures
            r == (match self {
                NeoComponents::Date(d) => d.spec_has_month(),
                NeoComponents::CalendarPeriod(c) => c is Month || c is YearMonth,
                NeoComponents::DateTime(d, _) => d.spec_has_month(),
                NeoComponents::DateZone(d, _) => d.spec_has_month(),
                NeoComponents::DateTimeZone(d, _, _) => d.spec_has_month(),
                _ => false,
            }),
    {
        match self {
            NeoComponents::Date(d) => d.has_month(),
            NeoComponents::CalendarPeriod(c) => c.has_month(),
            NeoComponents::DateTime(d, _) => d.has_month(),
            NeoComponents::DateZone(d, _) => d.has_month(),
            NeoComponents::DateTimeZone(d, _, _) => d.has_month(),
            _ => false,
        }
    }

    /// Whether this field set contains the day of the month.
    pub fn has_day(self) -> (r: bool)
        requires
            self.date_queries_supported(),
        ensures
            r == (match self {
                NeoComponents::Date(d) => !(d is Weekday),
                NeoComponents::CalendarPeriod(_) => false,
                NeoComponents::DateTime(d, _) => !(d is Weekday),
                NeoComponents::DateZone(d, _) => !(d is Weekday),
                NeoComponents::DateTimeZone(d, _, _) => !(d is Weekday),
                _ => false,
            }),
    {
        match self {
            NeoComponents::Date(d) => d.has_day(),
            NeoComponents::CalendarPeriod(_) => false,
            NeoComponents::DateTime(d, _) => d.has_day(),
            NeoComponents::DateZone(d, _) => d.has_day(),
            NeoComponents::DateTimeZone(d, _, _) => d.has_day(),
            _ => false,
        }
    }

    /// Whether this field set contains the weekday.
    pub fn has_weekday(self) -> (r: bool)
        requires
            self.date_queries_supported(),
        ensures
            r == (match self {
                NeoComponents::Date(d) => d.spec_has_weekday(),
                NeoComponents::CalendarPeriod(_) => false,
                NeoComponents::DateTime(d, _) => d.spec_has_weekday(),
                NeoComponents::DateZone(d, _) => d.spec_has_weekday(),
                NeoComponents::DateTimeZone(d, _, _) => d.spec_has_weekday(),
                _ => false,
            }),
    {
        match self {
            NeoComponents::Date(d) => d.has_weekday(),
            NeoComponents::CalendarPeriod(_) => false,
            NeoComponents::DateTime(d, _) => d.has_weekday(),
            NeoComponents::DateZone(d, _) => d.has_weekday(),
            NeoComponents::DateTimeZone(d, _, _) => d.has_weekday(),
            _ => false,
        }
    }

    /// Whether this field set contains the hour.
    pub fn has_hour(self) -> (r: bool)
        ensures
            r == (self is Time || self is DateTime || self is TimeZone || self is DateTimeZone),
    {
        match self {
            NeoComponents::Time(t) => t.has_hour(),
            NeoComponents::DateTime(_, t) => t.has_hour(),
            NeoComponents::TimeZone(t, _) => t.has_hour(),
            NeoComponents::DateTimeZone(_, t, _) => t.has_hour(),
            _ => false,
        }
    }

    /// Whether this field set contains the minute.
    pub fn has_minute(self) -> (r: bool)
        ensures
            r == (match self {
                NeoComponents::Time(t) => t.spec_has_minute(),
                NeoComponents::DateTime(_, t) => t.spec_has_minute(),
                NeoComponents::TimeZone(t, _) => t.spec_has_minute(),
                NeoComponents::DateTimeZone(_, t, _) => t.spec_has_minute(),
                _ => false,
            }),
    {
        match self {
            NeoComponents::Time(t) => t.has_minute(),
            NeoComponents::DateTime(_, t) => t.has_minute(),
            NeoComponents::TimeZone(t, _) => t.has_minute(),
            NeoComponents::DateTimeZone(_, t, _) => t.has_minute(),
            _ => false,
        }
    }

    /// Whether this field set contains the second.
    pub fn has_second(self) -> (r: bool)
        ensures
            r == (match self {
                NeoComponents::Time(t) => t.spec_has_second(),
                NeoComponents::DateTime(_, t) => t.spec_has_second(),
                NeoComponents::TimeZone(t, _) => t.spec_has_second(),
                NeoComponents::DateTimeZone(_, t, _) => t.spec_has_second(),
                _ => false,
            }),
    {
        match self {
            NeoComponents::Time(t) => t.has_second(),
            NeoComponents::DateTime(_, t) => t.has_second(),
            NeoComponents::TimeZone(t, _) => t.has_second(),
            NeoComponents::DateTimeZone(_, t, _) => t.has_second(),
            _ => false,
        }
    }
}

/// A skeleton for formatting a time zone.
#[derive(Debug, Copy, Clone, PartialEq, Eq, Structural, Hash)]
pub struct NeoTimeZoneSkeleton {
    /// The desired formatting length.
    pub length: NeoSkeletonLength,
    /// The display style.
    pub style: NeoTimeZoneStyle,
}

impl NeoTimeZoneSkeleton {
    /// A skeleton from its length and style.
    pub fn for_length_and_components(length: NeoSkeletonLength, style: NeoTimeZoneStyle) -> (r:
        Self)
        ensures
            r == (NeoTimeZoneSkeleton { length, style }),
    {
        NeoTimeZoneSkeleton { length, style }
    }
}

/// A skeleton for formatting parts of a date.
#[derive(Debug, Copy, Clone)]
pub struct NeoDateSkeleton {
    /// The desired formatting length.
    pub length: NeoSkeletonLength,
    /// The date components.
    pub components: NeoDateComponents,
    /// The alignment option.
    pub alignment: Option<Alignment>,
    /// The era display option.
    pub year_style: Option<YearStyle>,
}

impl NeoDateSkeleton {
    /// A skeleton from its length and components, other options unset.
    pub fn for_length_and_components(
        length: NeoSkeletonLength,
        components: NeoDateComponents,
    ) -> (r: Self)
        ensures
            r.length == length,
            r.components == components,
            r.alignment is None,
            r.year_style is None,
    {
        NeoDateSkeleton { length, components, alignment: None, year_style: None }
    }

    /// The skeleton a classic date length corresponds to.
    pub fn from_date_length(date_length: options::Date) -> (r: NeoDateSkeleton)
        ensures
            r.components == (match date_length {
                options::Date::Full => NeoDateComponents::AutoWeekday,
                _ => NeoDateComponents::Auto,
            }),
            r.length == (match date_length {
                options::Date::Full | options::Date::Long => NeoSkeletonLength::Long,
                options::Date::Medium => NeoSkeletonLength::Medium,
                options::Date::Short => NeoSkeletonLength::Short,
            }),
            r.alignment is None,
            r.year_style is None,
    {
        let (components, length) = match date_length {
            options::Date::Full => (NeoDateComponents::AutoWeekday, NeoSkeletonLength::Long),
            options::Date::Long => (NeoDateComponents::Auto, NeoSkeletonLength::Long),
            options::Date::Medium => (NeoDateComponents::Auto, NeoSkeletonLength::Medium),
            options::Date::Short => (NeoDateComponents::Auto, NeoSkeletonLength::Short),
        };
        NeoDateSkeleton::for_length_and_components(length, components)
    }
}

/// A skeleton for formatting a calendar period.
#[derive(Debug, Copy, Clone)]
pub struct NeoCalendarPeriodSkeleton {
    /// The desired formatting length.
    pub length: NeoSkeletonLength,
    /// The calendar-period components.
    pub components: NeoCalendarPeriodComponents,
    /// The alignment option.
    pub alignment: Option<Alignment>,
    /// The era display option.
    pub year_style: Option<YearStyle>,
}

impl NeoCalendarPeriodSkeleton {
    /// A skeleton from its length and components, other options unset.
    pub fn for_length_and_components(
        length: NeoSkeletonLength,
        components: NeoCalendarPeriodComponents,
    ) -> (r: Self)
        ensures
            r.length == length,
            r.components == components,
            r.alignment is None,
            r.year_style is None,
    {
        NeoCalendarPeriodSkeleton { length, components, alignment: None, year_style: None }
    }
}

/// A skeleton for formatting parts of a time.
#[derive(Debug, Copy, Clone)]
pub struct NeoTimeSkeleton {
    /// The desired formatting length.
    pub length: NeoSkeletonLength,
    /// The time components.
    pub components: NeoTimeComponents,
    /// The alignment option.
    pub alignment: Option<Alignment>,
    /// The fractional-second digits option.
    pub fractional_second_digits: Option<FractionalSecondDigits>,
}

impl NeoTimeSkeleton {
    /// A skeleton from its length and components, other options unset.
    pub fn for_length_and_components(
        length: NeoSkeletonLength,
        components: NeoTimeComponents,
    ) -> (r: Self)
        ensures
            r.length == length,
            r.components == components,
            r.alignment is None,
            r.fractional_second_digits is None,
    {
        NeoTimeSkeleton { length, components, alignment: None, fractional_second_digits: None }
    }
}

/// A skeleton for formatting parts of a date and a time.
#[derive(Debug, Copy, Clone)]
pub struct NeoDateTimeSkeleton {
    /// The desired formatting length.
    pub length: NeoSkeletonLength,
    /// The date and time components.
    pub components: NeoDateTimeComponents,
    /// The alignment option.
    pub alignment: Option<Alignment>,
    /// The era display option.
    pub year_style: Option<YearStyle>,
    /// The fractional-second digits option.
    pub fractional_second_digits: Option<FractionalSecondDigits>,
}

impl NeoDateTimeSkeleton {
    /// A skeleton from its length and components, other options unset.
    pub fn for_length_and_components(
        length: NeoSkeletonLength,
        components: NeoDateTimeComponents,
    ) -> (r: Self)
        ensures
            r.length == length,
            r.components == components,
            r.alignment is None,
            r.year_style is None,
            r.fractional_second_digits is None,
    {
        NeoDateTimeSkeleton {
            length,
            components,
            alignment: None,
            year_style: None,
            fractional_second_digits: None,
        }
    }

    /// The skeleton a pair of classic date and time lengths corresponds
    /// to.  The full and the long time lengths carry a zone and are left
    /// out, as in [`NeoTimeComponents::from_time_length`].
    pub fn from_date_time_length(
        date_length: options::Date,
        time_length: options::Time,
    ) -> (r: Self)
        requires
            matches!(time_length, options::Time::Medium | options::Time::Short),
        ensures
            r.length == (match date_length {
                options::Date::Full | options::Date::Long => NeoSkeletonLength::Long,
                options::Date::Medium => NeoSkeletonLength::Medium,
                options::Date::Short => NeoSkeletonLength::Short,
            }),
            r.components matches NeoDateTimeComponents::DateTime(d, t) && d == (match date_length {
                options::Date::Full => NeoDateComponents::AutoWeekday,
                _ => NeoDateComponents::Auto,
            }) && t == (match time_length {
                options::Time::Short => NeoTimeComponents::HourMinute,
                _ => NeoTimeComponents::HourMinuteSecond,
            }),
            r.alignment is None,
            r.year_style is None,
            r.fractional_second_digits is None,
    {
        let date_skeleton = NeoDateSkeleton::from_date_length(date_length);
        let time_components = NeoTimeComponents::from_time_length(time_length);
        NeoDateTimeSkeleton {
            length: date_skeleton.length,
            components: NeoDateTimeComponents::DateTime(date_skeleton.components, time_components),
            alignment: None,
            year_style: None,
            fractional_second_digits: None,
        }
    }
}

/// A skeleton for formatting parts of a date, a time, and an optional
/// time zone.
#[derive(Debug, Copy, Clone, PartialEq, Eq, Hash)]
pub struct NeoSkeleton {
    /// The desired formatting length.
    pub length: NeoSkeletonLength,
    /// The components.
    pub components: NeoComponents,
    /// The alignment option.
    pub alignment: Option<Alignment>,
    /// The era display option.
    pub year_style: Option<YearStyle>,
    /// The fractional-second digits option.
    pub fractional_second_digits: Option<FractionalSecondDigits>,
}

impl NeoSkeleton {
    /// A skeleton from its length and components, other options unset.
    pub fn for_length_and_components(length: NeoSkeletonLength, components: NeoComponents) -> (r:
        Self)
        ensures
            r.length == length,
            r.components == components,
            r.alignment is None,
            r.year_style is None,
            r.fractional_second_digits is None,
    {
        NeoSkeleton {
            length,
            components,
            alignment: None,
            year_style: None,
            fractional_second_digits: None,
        }
    }
}

} // verus!
