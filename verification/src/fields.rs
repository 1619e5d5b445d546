//! Field symbols, field lengths, and pattern items.
//!
//! A pattern is an ordered sequence of items; each item is either literal
//! text, copied verbatim into the output, or a field: a semantic symbol
//! together with a length of 1 to 6 that selects a width or a padding.

use vstd::prelude::*;

verus! {

/// The repetition count of a pattern symbol, from 1 to 6.
#[derive(Debug, Copy, Clone, PartialEq, Eq, Structural)]
pub enum FieldLength {
    One,
    Two,
    Three,
    Four,
    Five,
    Six,
}

impl FieldLength {
    /// The numeric value of the length.
    pub fn to_usize(self) -> (r: usize)
        ensures
            r == self.spec_usize(),
    {
        match self {
            FieldLength::One => 1,
            FieldLength::Two => 2,
            FieldLength::Three => 3,
            FieldLength::Four => 4,
            FieldLength::Five => 5,
            FieldLength::Six => 6,
        }
    }

    pub open spec fn spec_usize(self) -> usize {
        match self {
            FieldLength::One => 1usize,
            FieldLength::Two => 2usize,
            FieldLength::Three => 3usize,
            FieldLength::Four => 4usize,
            FieldLength::Five => 5usize,
            FieldLength::Six => 6usize,
        }
    }

    /// Normalizes the numeric lengths 1 and 2 to the abbreviated length 3,
    /// as the pattern grammar prescribes for the symbols whose lengths
    /// 1 to 3 all select the abbreviated name.
    pub fn numeric_to_abbr(self) -> (r: Self)
        ensures
            r == self.spec_numeric_to_abbr(),
    {
        match self {
            FieldLength::One | FieldLength::Two => FieldLength::Three,
            other => other,
        }
    }

    pub open spec fn spec_numeric_to_abbr(self) -> Self {
        match self {
            FieldLength::One | FieldLength::Two => FieldLength::Three,
            other => other,
        }
    }
}

/// The year sub-symbols.
#[derive(Debug, Copy, Clone, PartialEq, Eq, Structural)]
pub enum Year {
    /// `y`: the calendar year, rendered numerically.
    Calendar,
    /// `U`: the cyclic year name.
    Cyclic,
    /// `r`: the related ISO year, always rendered as ASCII digits.
    RelatedIso,
}

/// The month sub-symbols.
#[derive(Debug, Copy, Clone, PartialEq, Eq, Structural)]
pub enum Month {
    /// `M`: a month name for formatting with other fields.
    Format,
    /// `L`: a month name for stand-alone display.
    StandAlone,
}

/// The day sub-symbols.
#[derive(Debug, Copy, Clone, PartialEq, Eq, Structural)]
pub enum Day {
    /// `d`: the day of the month.
    DayOfMonth,
    /// `D`: the day of the year.
    DayOfYear,
    /// `F`: the day of the week in the month.
    DayOfWeekInMonth,
}

/// The weekday sub-symbols.
#[derive(Debug, Copy, Clone, PartialEq, Eq, Structural)]
pub enum Weekday {
    /// `E`: a weekday name for formatting with other fields.
    Format,
    /// `e`: a locale-dependent weekday number or name.
    Local,
    /// `c`: a weekday name for stand-alone display.
    StandAlone,
}

impl Weekday {
    /// The non-numeric names of `e` are those of `E`.
    pub fn to_format_symbol(self) -> (r: Self)
        ensures
            r == self.spec_to_format_symbol(),
    {
        match self {
            Weekday::Local => Weekday::Format,
            other => other,
        }
    }

    pub open spec fn spec_to_format_symbol(self) -> Self {
        match self {
            Weekday::Local => Weekday::Format,
            other => other,
        }
    }
}

/// The day-period sub-symbols.
#[derive(Debug, Copy, Clone, PartialEq, Eq, Structural)]
pub enum DayPeriod {
    /// `a`: am or pm.
    AmPm,
    /// `b`: am or pm, or noon or midnight exactly at the top of those hours.
    NoonMidnight,
}

/// The hour sub-symbols, named after their hour cycles.
#[derive(Debug, Copy, Clone, PartialEq, Eq, Structural)]
pub enum Hour {
    /// `K`: hour 0 to 11.
    H11,
    /// `h`: hour 1 to 12.
    H12,
    /// `H`: hour 0 to 23.
    H23,
    /// `k`: hour 1 to 24.
    H24,
}

/// The second sub-symbols.
#[derive(Debug, Copy, Clone, PartialEq, Eq, Structural)]
pub enum Second {
    /// `s`: the second of the minute.
    Second,
    /// `A`: the millisecond of the day.
    MillisInDay,
}

/// The number of fractional-second digits carried by a decimal-second
/// symbol: the second of the minute followed by that many subsecond digits.
#[derive(Debug, Copy, Clone, PartialEq, Eq, Structural)]
pub enum DecimalSecond {
    Subsecond1,
    Subsecond2,
    Subsecond3,
    Subsecond4,
    Subsecond5,
    Subsecond6,
    Subsecond7,
    Subsecond8,
    Subsecond9,
}

impl DecimalSecond {
    /// How many fractional digits the symbol asks for.
    pub fn digits(self) -> (r: usize)
        ensures
            r == self.spec_digits(),
            1 <= r <= 9,
    {
        match self {
            DecimalSecond::Subsecond1 => 1,
            DecimalSecond::Subsecond2 => 2,
            DecimalSecond::Subsecond3 => 3,
            DecimalSecond::Subsecond4 => 4,
            DecimalSecond::Subsecond5 => 5,
            DecimalSecond::Subsecond6 => 6,
            DecimalSecond::Subsecond7 => 7,
            DecimalSecond::Subsecond8 => 8,
            DecimalSecond::Subsecond9 => 9,
        }
    }

    pub open spec fn spec_digits(self) -> usize {
        match self {
            DecimalSecond::Subsecond1 => 1usize,
            DecimalSecond::Subsecond2 => 2usize,
            DecimalSecond::Subsecond3 => 3usize,
            DecimalSecond::Subsecond4 => 4usize,
            DecimalSecond::Subsecond5 => 5usize,
            DecimalSecond::Subsecond6 => 6usize,
            DecimalSecond::Subsecond7 => 7usize,
            DecimalSecond::Subsecond8 => 8usize,
            DecimalSecond::Subsecond9 => 9usize,
        }
    }
}

/// The time-zone sub-symbols.
#[derive(Debug, Copy, Clone, PartialEq, Eq, Structural)]
pub enum TimeZone {
    /// `z`: the specific non-location name, such as a daylight-time name.
    SpecificNonLocation,
    /// `v`: the generic non-location name.
    GenericNonLocation,
    /// `V`: the zone identifier, exemplar city, or location format.
    Location,
    /// `O`: the localized offset format.
    LocalizedOffset,
    /// `x`: the ISO-8601 offset format.
    Iso,
    /// `X`: the ISO-8601 offset format with `Z` for the zero offset.
    IsoWithZ,
}

/// A semantic field category addressed by a letter of the pattern grammar.
#[derive(Debug, Copy, Clone, PartialEq, Eq, Structural)]
pub enum FieldSymbol {
    /// `G`: the era name.
    Era,
    Year(Year),
    Month(Month),
    Day(Day),
    Weekday(Weekday),
    DayPeriod(DayPeriod),
    Hour(Hour),
    /// `m`: the minute of the hour.
    Minute,
    Second(Second),
    DecimalSecond(DecimalSecond),
    TimeZone(TimeZone),
}

impl FieldSymbol {
    /// The canonical letter of the symbol, used in fallback placeholders.
    pub fn canonical_letter(self) -> (r: &'static str)
        ensures
            r@ == self.spec_canonical_letter(),
    {
        match self {
            FieldSymbol::Era => "G",
            FieldSymbol::Year(Year::Calendar) => "y",
            FieldSymbol::Year(Year::Cyclic) => "U",
            FieldSymbol::Year(Year::RelatedIso) => "r",
            FieldSymbol::Month(Month::Format) => "M",
            FieldSymbol::Month(Month::StandAlone) => "L",
            FieldSymbol::Day(Day::DayOfMonth) => "d",
            FieldSymbol::Day(Day::DayOfYear) => "D",
            FieldSymbol::Day(Day::DayOfWeekInMonth) => "F",
            FieldSymbol::Weekday(Weekday::Format) => "E",
            FieldSymbol::Weekday(Weekday::Local) => "e",
            FieldSymbol::Weekday(Weekday::StandAlone) => "c",
            FieldSymbol::DayPeriod(DayPeriod::AmPm) => "a",
            FieldSymbol::DayPeriod(DayPeriod::NoonMidnight) => "b",
            FieldSymbol::Hour(Hour::H11) => "K",
            FieldSymbol::Hour(Hour::H12) => "h",
            FieldSymbol::Hour(Hour::H23) => "H",
            FieldSymbol::Hour(Hour::H24) => "k",
            FieldSymbol::Minute => "m",
            FieldSymbol::Second(Second::Second) => "s",
            FieldSymbol::Second(Second::MillisInDay) => "A",
            FieldSymbol::DecimalSecond(_) => "s",
            FieldSymbol::TimeZone(TimeZone::SpecificNonLocation) => "z",
            FieldSymbol::TimeZone(TimeZone::GenericNonLocation) => "v",
            FieldSymbol::TimeZone(TimeZone::Location) => "V",
            FieldSymbol::TimeZone(TimeZone::LocalizedOffset) => "O",
            FieldSymbol::TimeZone(TimeZone::Iso) => "x",
            FieldSymbol::TimeZone(TimeZone::IsoWithZ) => "X",
        }
    }

    pub open spec fn spec_canonical_letter(self) -> Seq<char> {
        match self {
            FieldSymbol::Era => "G"@,
            FieldSymbol::Year(Year::Calendar) => "y"@,
            FieldSymbol::Year(Year::Cyclic) => "U"@,
            FieldSymbol::Year(Year::RelatedIso) => "r"@,
            FieldSymbol::Month(Month::Format) => "M"@,
            FieldSymbol::Month(Month::StandAlone) => "L"@,
            FieldSymbol::Day(Day::DayOfMonth) => "d"@,
            FieldSymbol::Day(Day::DayOfYear) => "D"@,
            FieldSymbol::Day(Day::DayOfWeekInMonth) => "F"@,
            FieldSymbol::Weekday(Weekday::Format) => "E"@,
            FieldSymbol::Weekday(Weekday::Local) => "e"@,
            FieldSymbol::Weekday(Weekday::StandAlone) => "c"@,
            FieldSymbol::DayPeriod(DayPeriod::AmPm) => "a"@,
            FieldSymbol::DayPeriod(DayPeriod::NoonMidnight) => "b"@,
            FieldSymbol::Hour(Hour::H11) => "K"@,
            FieldSymbol::Hour(Hour::H12) => "h"@,
            FieldSymbol::Hour(Hour::H23) => "H"@,
            FieldSymbol::Hour(Hour::H24) => "k"@,
            FieldSymbol::Minute => "m"@,
            FieldSymbol::Second(Second::Second) => "s"@,
            FieldSymbol::Second(Second::MillisInDay) => "A"@,
            FieldSymbol::DecimalSecond(_) => "s"@,
            FieldSymbol::TimeZone(TimeZone::SpecificNonLocation) => "z"@,
            FieldSymbol::TimeZone(TimeZone::GenericNonLocation) => "v"@,
            FieldSymbol::TimeZone(TimeZone::Location) => "V"@,
            FieldSymbol::TimeZone(TimeZone::LocalizedOffset) => "O"@,
            FieldSymbol::TimeZone(TimeZone::Iso) => "x"@,
            FieldSymbol::TimeZone(TimeZone::IsoWithZ) => "X"@,
        }
    }
}

/// A field of a pattern: a symbol and a length.
#[derive(Debug, Copy, Clone, PartialEq, Eq, Structural)]
pub struct Field {
    pub symbol: FieldSymbol,
    pub length: FieldLength,
}

/// A field carried inside an error, identifying approximately which pattern
/// field the error is about.
#[derive(Debug, Copy, Clone, PartialEq, Eq, Structural)]
pub struct ErrorField(pub Field);

/// One item of a pattern: literal text or a field.
#[derive(Debug, Clone)]
pub enum PatternItem {
    /// Text copied verbatim into the output.
    Literal(String),
    /// A field resolved against loaded names or rendered numerically.
    Field(Field),
}

impl View for PatternItem {
    type V = PatternItemModel;

    open spec fn view(&self) -> PatternItemModel {
        match self {
            PatternItem::Literal(s) => PatternItemModel::Literal(s@),
            PatternItem::Field(f) => PatternItemModel::Field(*f),
        }
    }
}

/// The mathematical model of a pattern item.
pub enum PatternItemModel {
    Literal(Seq<char>),
    Field(Field),
}

/// An ordered, immutable sequence of pattern items.
///
/// The grammar that produces such a sequence from a pattern string is not
/// part of this crate; callers hand the items over directly.
#[derive(Debug, Clone)]
pub struct DateTimePattern {
    pub items: Vec<PatternItem>,
}

impl View for DateTimePattern {
    type V = Seq<PatternItemModel>;

    open spec fn view(&self) -> Seq<PatternItemModel> {
        self.items@.map(|i: int, it: PatternItem| it@)
    }
}

impl DateTimePattern {
    /// Builds a pattern from its items.
    pub fn from_items(items: Vec<PatternItem>) -> (r: Self)
        ensures
            r.items@ == items@,
    {
        DateTimePattern { items }
    }
}

} // verus!
