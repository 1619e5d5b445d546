//! Name-length descriptors: which width and context of a name category a
//! caller asks for, and how the descriptors convert to and from the
//! field-symbol and field-length pairs of the pattern grammar.
//!
//! Every conversion is total and pure.  A symbol-and-length pair that the
//! engine does not understand converts to `None`, never to a default.

use vstd::prelude::*;
use crate::fields::{DayPeriod, ErrorField, Field, FieldLength, FieldSymbol, Month, Weekday};

verus! {

/// The context half of a data attribute: names used next to other fields,
/// or names for stand-alone display.
#[derive(Debug, Copy, Clone, PartialEq, Eq, Structural)]
pub enum AttrContext {
    Format,
    Standalone,
}

/// The width half of a data attribute.
#[derive(Debug, Copy, Clone, PartialEq, Eq, Structural)]
pub enum AttrLength {
    Abbr,
    Wide,
    Narrow,
    Short,
}

/// The short stable token under which a name table is filed in the data
/// backend.  It is independent of the symbol letters that request it, so
/// that the backend's keys are stable across pattern spellings.
#[derive(Debug, Copy, Clone, PartialEq, Eq, Structural)]
pub struct NameAttribute {
    pub context: AttrContext,
    pub length: AttrLength,
}

/// Choices for loading year (era or cyclic) names.
#[derive(Debug, Copy, Clone, PartialEq, Eq, Structural)]
pub enum YearNameLength {
    /// An abbreviated year or era name, such as "AD".
    Abbreviated,
    /// A wide year or era name, such as "Anno Domini".
    Wide,
    /// A narrow year or era name, not necessarily unique.
    Narrow,
}

impl YearNameLength {
    /// The backend attribute under which these names are filed.
    pub fn to_attributes(self) -> (r: NameAttribute)
        ensures
            r == self.spec_to_attributes(),
    {
        let length = match self {
            YearNameLength::Abbreviated => AttrLength::Abbr,
            YearNameLength::Wide => AttrLength::Wide,
            YearNameLength::Narrow => AttrLength::Narrow,
        };
        NameAttribute { context: AttrContext::Format, length }
    }

    pub open spec fn spec_to_attributes(self) -> NameAttribute {
        NameAttribute {
            context: AttrContext::Format,
            length: match self {
                YearNameLength::Abbreviated => AttrLength::Abbr,
                YearNameLength::Wide => AttrLength::Wide,
                YearNameLength::Narrow => AttrLength::Narrow,
            },
        }
    }

    /// The descriptor selected by an era or cyclic-year field length.
    /// Lengths 1 to 3 all select the abbreviated names.
    pub fn from_field_length(field_length: FieldLength) -> (r: Option<Self>)
        ensures
            r == Self::spec_from_field_length(field_length),
    {
        let field_length = field_length.numeric_to_abbr();
        match field_length {
            FieldLength::Three => Some(YearNameLength::Abbreviated),
            FieldLength::Four => Some(YearNameLength::Wide),
            FieldLength::Five => Some(YearNameLength::Narrow),
            _ => None,
        }
    }

    pub open spec fn spec_from_field_length(field_length: FieldLength) -> Option<Self> {
        match field_length.spec_numeric_to_abbr() {
            FieldLength::Three => Some(YearNameLength::Abbreviated),
            FieldLength::Four => Some(YearNameLength::Wide),
            FieldLength::Five => Some(YearNameLength::Narrow),
            _ => None,
        }
    }

    /// A field sufficient for error reporting: the canonical era field of
    /// this width.
    pub fn to_approximate_error_field(self) -> (r: ErrorField)
        ensures
            r == self.spec_to_approximate_error_field(),
    {
        let field_length = match self {
            YearNameLength::Abbreviated => FieldLength::Three,
            YearNameLength::Wide => FieldLength::Four,
            YearNameLength::Narrow => FieldLength::Five,
        };
        ErrorField(Field { symbol: FieldSymbol::Era, length: field_length })
    }

    pub open spec fn spec_to_approximate_error_field(self) -> ErrorField {
        ErrorField(
            Field {
                symbol: FieldSymbol::Era,
                length: match self {
                    YearNameLength::Abbreviated => FieldLength::Three,
                    YearNameLength::Wide => FieldLength::Four,
                    YearNameLength::Narrow => FieldLength::Five,
                },
            },
        )
    }
}

/// The descriptor and its approximate error field normalize back to the
/// descriptor: the round trip through the field representation is the
/// identity, for every year-name descriptor.
pub proof fn lemma_year_name_length_round_trip(length: YearNameLength)
    ensures
        YearNameLength::spec_from_field_length(
            length.spec_to_approximate_error_field().0.length,
        ) == Some(length),
{
}

/// Choices for loading month names.
#[derive(Debug, Copy, Clone, PartialEq, Eq, Structural)]
pub enum MonthNameLength {
    /// An abbreviated month name for formatting with other fields.
    Abbreviated,
    /// A wide month name for formatting with other fields.
    Wide,
    /// A narrow month name, not necessarily unique.
    Narrow,
    /// An abbreviated month name for stand-alone display.
    StandaloneAbbreviated,
    /// A wide month name for stand-alone display.
    StandaloneWide,
    /// A narrow stand-alone month name, not necessarily unique.
    StandaloneNarrow,
}

impl MonthNameLength {
    /// The backend attribute under which these names are filed.
    pub fn to_attributes(self) -> (r: NameAttribute)
        ensures
            r == self.spec_to_attributes(),
    {
        let (context, length) = match self {
            MonthNameLength::Abbreviated => (AttrContext::Format, AttrLength::Abbr),
            MonthNameLength::Wide => (AttrContext::Format, AttrLength::Wide),
            MonthNameLength::Narrow => (AttrContext::Format, AttrLength::Narrow),
            MonthNameLength::StandaloneAbbreviated => (AttrContext::Standalone, AttrLength::Abbr),
            MonthNameLength::StandaloneWide => (AttrContext::Standalone, AttrLength::Wide),
            MonthNameLength::StandaloneNarrow => (AttrContext::Standalone, AttrLength::Narrow),
        };
        NameAttribute { context, length }
    }

    pub open spec fn spec_to_attributes(self) -> NameAttribute {
        match self {
            MonthNameLength::Abbreviated => NameAttribute {
                context: AttrContext::Format,
                length: AttrLength::Abbr,
            },
            MonthNameLength::Wide => NameAttribute {
                context: AttrContext::Format,
                length: AttrLength::Wide,
            },
            MonthNameLength::Narrow => NameAttribute {
                context: AttrContext::Format,
                length: AttrLength::Narrow,
            },
            MonthNameLength::StandaloneAbbreviated => NameAttribute {
                context: AttrContext::Standalone,
                length: AttrLength::Abbr,
            },
            MonthNameLength::StandaloneWide => NameAttribute {
                context: AttrContext::Standalone,
                length: AttrLength::Wide,
            },
            MonthNameLength::StandaloneNarrow => NameAttribute {
                context: AttrContext::Standalone,
                length: AttrLength::Narrow,
            },
        }
    }

    /// The descriptor selected by a month field of the given symbol and
    /// length.  Lengths 1 and 2 are numeric months, not names, and lengths
    /// beyond 5 are unknown: both convert to `None`.
    pub fn from_field(field_symbol: Month, field_length: FieldLength) -> (r: Option<Self>)
        ensures
            r == Self::spec_from_field(field_symbol, field_length),
    {
        match (field_symbol, field_length) {
            (Month::Format, FieldLength::Three) => Some(MonthNameLength::Abbreviated),
            (Month::Format, FieldLength::Four) => Some(MonthNameLength::Wide),
            (Month::Format, FieldLength::Five) => Some(MonthNameLength::Narrow),
            (Month::StandAlone, FieldLength::Three) => Some(MonthNameLength::StandaloneAbbreviated),
            (Month::StandAlone, FieldLength::Four) => Some(MonthNameLength::StandaloneWide),
            (Month::StandAlone, FieldLength::Five) => Some(MonthNameLength::StandaloneNarrow),
            _ => None,
        }
    }

    pub open spec fn spec_from_field(field_symbol: Month, field_length: FieldLength) -> Option<
        Self,
    > {
        match (field_symbol, field_length) {
            (Month::Format, FieldLength::Three) => Some(MonthNameLength::Abbreviated),
            (Month::Format, FieldLength::Four) => Some(MonthNameLength::Wide),
            (Month::Format, FieldLength::Five) => Some(MonthNameLength::Narrow),
            (Month::StandAlone, FieldLength::Three) => Some(MonthNameLength::StandaloneAbbreviated),
            (Month::StandAlone, FieldLength::Four) => Some(MonthNameLength::StandaloneWide),
            (Month::StandAlone, FieldLength::Five) => Some(MonthNameLength::StandaloneNarrow),
            _ => None,
        }
    }

    /// A field sufficient for error reporting.
    pub fn to_approximate_error_field(self) -> (r: ErrorField)
        ensures
            r == self.spec_to_approximate_error_field(),
    {
        let (field_symbol, field_length) = match self {
            MonthNameLength::Abbreviated => (Month::Format, FieldLength::Three),
            MonthNameLength::Wide => (Month::Format, FieldLength::Four),
            MonthNameLength::Narrow => (Month::Format, FieldLength::Five),
            MonthNameLength::StandaloneAbbreviated => (Month::StandAlone, FieldLength::Three),
            MonthNameLength::StandaloneWide => (Month::StandAlone, FieldLength::Four),
            MonthNameLength::StandaloneNarrow => (Month::StandAlone, FieldLength::Five),
        };
        ErrorField(Field { symbol: FieldSymbol::Month(field_symbol), length: field_length })
    }

    pub open spec fn spec_to_approximate_error_field(self) -> ErrorField {
        match self {
            MonthNameLength::Abbreviated => ErrorField(
                Field { symbol: FieldSymbol::Month(Month::Format), length: FieldLength::Three },
            ),
            MonthNameLength::Wide => ErrorField(
                Field { symbol: FieldSymbol::Month(Month::Format), length: FieldLength::Four },
            ),
            MonthNameLength::Narrow => ErrorField(
                Field { symbol: FieldSymbol::Month(Month::Format), length: FieldLength::Five },
            ),
            MonthNameLength::StandaloneAbbreviated => ErrorField(
                Field { symbol: FieldSymbol::Month(Month::StandAlone), length: FieldLength::Three },
            ),
            MonthNameLength::StandaloneWide => ErrorField(
                Field { symbol: FieldSymbol::Month(Month::StandAlone), length: FieldLength::Four },
            ),
            MonthNameLength::StandaloneNarrow => ErrorField(
                Field { symbol: FieldSymbol::Month(Month::StandAlone), length: FieldLength::Five },
            ),
        }
    }
}

/// The round trip from a month-name descriptor through its approximate
/// field and forward again is the identity.
pub proof fn lemma_month_name_length_round_trip(length: MonthNameLength)
    ensures
        length.spec_to_approximate_error_field().0.symbol matches FieldSymbol::Month(m) &&
            MonthNameLength::spec_from_field(
            m,
            length.spec_to_approximate_error_field().0.length,
        ) == Some(length),
{
}

/// Choices for loading weekday names.
#[derive(Debug, Copy, Clone, PartialEq, Eq, Structural)]
pub enum WeekdayNameLength {
    /// An abbreviated weekday name, such as "Tue".
    Abbreviated,
    /// A wide weekday name, such as "Tuesday".
    Wide,
    /// A narrow weekday name, not necessarily unique.
    Narrow,
    /// A short weekday name, such as "Tu".
    Short,
    /// An abbreviated weekday name for stand-alone display.
    StandaloneAbbreviated,
    /// A wide weekday name for stand-alone display.
    StandaloneWide,
    /// A narrow stand-alone weekday name, not necessarily unique.
    StandaloneNarrow,
    /// A short weekday name for stand-alone display.
    StandaloneShort,
}

impl WeekdayNameLength {
    /// The backend attribute under which these names are filed.
    pub fn to_attributes(self) -> (r: NameAttribute)
        ensures
            r == self.spec_to_attributes(),
    {
        let (context, length) = match self {
            WeekdayNameLength::Abbreviated => (AttrContext::Format, AttrLength::Abbr),
            WeekdayNameLength::Wide => (AttrContext::Format, AttrLength::Wide),
            WeekdayNameLength::Narrow => (AttrContext::Format, AttrLength::Narrow),
            WeekdayNameLength::Short => (AttrContext::Format, AttrLength::Short),
            WeekdayNameLength::StandaloneAbbreviated => (AttrContext::Standalone, AttrLength::Abbr),
            WeekdayNameLength::StandaloneWide => (AttrContext::Standalone, AttrLength::Wide),
            WeekdayNameLength::StandaloneNarrow => (AttrContext::Standalone, AttrLength::Narrow),
            WeekdayNameLength::StandaloneShort => (AttrContext::Standalone, AttrLength::Short),
        };
        NameAttribute { context, length }
    }

    pub open spec fn spec_to_attributes(self) -> NameAttribute {
        match self {
            WeekdayNameLength::Abbreviated => NameAttribute {
                context: AttrContext::Format,
                length: AttrLength::Abbr,
            },
            WeekdayNameLength::Wide => NameAttribute {
                context: AttrContext::Format,
                length: AttrLength::Wide,
            },
            WeekdayNameLength::Narrow => NameAttribute {
                context: AttrContext::Format,
                length: AttrLength::Narrow,
            },
            WeekdayNameLength::Short => NameAttribute {
                context: AttrContext::Format,
                length: AttrLength::Short,
            },
            WeekdayNameLength::StandaloneAbbreviated => NameAttribute {
                context: AttrContext::Standalone,
                length: AttrLength::Abbr,
            },
            WeekdayNameLength::StandaloneWide => NameAttribute {
                context: AttrContext::Standalone,
                length: AttrLength::Wide,
            },
            WeekdayNameLength::StandaloneNarrow => NameAttribute {
                context: AttrContext::Standalone,
                length: AttrLength::Narrow,
            },
            WeekdayNameLength::StandaloneShort => NameAttribute {
                context: AttrContext::Standalone,
                length: AttrLength::Short,
            },
        }
    }

    /// The descriptor selected by a weekday field of the given symbol and
    /// length.  The non-numeric names of `e` are those of `E`, and for `E`
    /// the lengths 1 to 3 all select the abbreviated names; for the other
    /// symbols lengths 1 and 2 are numeric and convert to `None`.
    pub fn from_field(field_symbol: Weekday, field_length: FieldLength) -> (r: Option<Self>)
        ensures
            r == Self::spec_from_field(field_symbol, field_length),
    {
        let field_symbol = field_symbol.to_format_symbol();
        let field_length = if matches!(field_symbol, Weekday::Format) {
            field_length.numeric_to_abbr()
        } else {
            field_length
        };
        match (field_symbol, field_length) {
            (Weekday::Format, FieldLength::Three) => Some(WeekdayNameLength::Abbreviated),
            (Weekday::Format, FieldLength::Four) => Some(WeekdayNameLength::Wide),
            (Weekday::Format, FieldLength::Five) => Some(WeekdayNameLength::Narrow),
            (Weekday::Format, FieldLength::Six) => Some(WeekdayNameLength::Short),
            (Weekday::StandAlone, FieldLength::Three) => Some(
                WeekdayNameLength::StandaloneAbbreviated,
            ),
            (Weekday::StandAlone, FieldLength::Four) => Some(WeekdayNameLength::StandaloneWide),
            (Weekday::StandAlone, FieldLength::Five) => Some(WeekdayNameLength::StandaloneNarrow),
            (Weekday::StandAlone, FieldLength::Six) => Some(WeekdayNameLength::StandaloneShort),
            _ => None,
        }
    }

    pub open spec fn spec_from_field(field_symbol: Weekday, field_length: FieldLength) -> Option<
        Self,
    > {
        {
            let field_symbol = field_symbol.spec_to_format_symbol();
            let field_length = if field_symbol is Format {
                field_length.spec_numeric_to_abbr()
            } else {
                field_length
            };
            match (field_symbol, field_length) {
                (Weekday::Format, FieldLength::Three) => Some(WeekdayNameLength::Abbreviated),
                (Weekday::Format, FieldLength::Four) => Some(WeekdayNameLength::Wide),
                (Weekday::Format, FieldLength::Five) => Some(WeekdayNameLength::Narrow),
                (Weekday::Format, FieldLength::Six) => Some(WeekdayNameLength::Short),
                (Weekday::StandAlone, FieldLength::Three) => Some(
                    WeekdayNameLength::StandaloneAbbreviated,
                ),
                (Weekday::StandAlone, FieldLength::Four) => Some(WeekdayNameLength::StandaloneWide),
                (Weekday::StandAlone, FieldLength::Five) => Some(
                    WeekdayNameLength::StandaloneNarrow,
                ),
                (Weekday::StandAlone, FieldLength::Six) => Some(WeekdayNameLength::StandaloneShort),
                _ => None,
            }
        }
    }

    /// A field sufficient for error reporting.
    pub fn to_approximate_error_field(self) -> (r: ErrorField)
        ensures
            r == self.spec_to_approximate_error_field(),
    {
        let (field_symbol, field_length) = match self {
            WeekdayNameLength::Abbreviated => (Weekday::Format, FieldLength::Three),
            WeekdayNameLength::Wide => (Weekday::Format, FieldLength::Four),
            WeekdayNameLength::Narrow => (Weekday::Format, FieldLength::Five),
            WeekdayNameLength::Short => (Weekday::Format, FieldLength::Six),
            WeekdayNameLength::StandaloneAbbreviated => (Weekday::StandAlone, FieldLength::Three),
            WeekdayNameLength::StandaloneWide => (Weekday::StandAlone, FieldLength::Four),
            WeekdayNameLength::StandaloneNarrow => (Weekday::StandAlone, FieldLength::Five),
            WeekdayNameLength::StandaloneShort => (Weekday::StandAlone, FieldLength::Six),
        };
        ErrorField(Field { symbol: FieldSymbol::Weekday(field_symbol), length: field_length })
    }

    pub open spec fn spec_to_approximate_error_field(self) -> ErrorField {
        match self {
            WeekdayNameLength::Abbreviated => ErrorField(
                Field { symbol: FieldSymbol::Weekday(Weekday::Format), length: FieldLength::Three },
            ),
            WeekdayNameLength::Wide => ErrorField(
                Field { symbol: FieldSymbol::Weekday(Weekday::Format), length: FieldLength::Four },
            ),
            WeekdayNameLength::Narrow => ErrorField(
                Field { symbol: FieldSymbol::Weekday(Weekday::Format), length: FieldLength::Five },
            ),
            WeekdayNameLength::Short => ErrorField(
                Field { symbol: FieldSymbol::Weekday(Weekday::Format), length: FieldLength::Six },
            ),
            WeekdayNameLength::StandaloneAbbreviated => ErrorField(
                Field {
                    symbol: FieldSymbol::Weekday(Weekday::StandAlone),
                    length: FieldLength::Three,
                },
            ),
            WeekdayNameLength::StandaloneWide => ErrorField(
                Field {
                    symbol: FieldSymbol::Weekday(Weekday::StandAlone),
                    length: FieldLength::Four,
                },
            ),
            WeekdayNameLength::StandaloneNarrow => ErrorField(
                Field {
                    symbol: FieldSymbol::Weekday(Weekday::StandAlone),
                    length: FieldLength::Five,
                },
            ),
            WeekdayNameLength::StandaloneShort => ErrorField(
                Field {
                    symbol: FieldSymbol::Weekday(Weekday::StandAlone),
                    length: FieldLength::Six,
                },
            ),
        }
    }
}

/// The round trip from a weekday-name descriptor through its approximate
/// field and forward again is the identity.
pub proof fn lemma_weekday_name_length_round_trip(length: WeekdayNameLength)
    ensures
        length.spec_to_approximate_error_field().0.symbol matches FieldSymbol::Weekday(w) &&
            WeekdayNameLength::spec_from_field(
            w,
            length.spec_to_approximate_error_field().0.length,
        ) == Some(length),
{
}

/// Choices for loading day-period names.
#[derive(Debug, Copy, Clone, PartialEq, Eq, Structural)]
pub enum DayPeriodNameLength {
    /// An abbreviated 12-hour day-period name, including names for hour 0
    /// and hour 12.
    Abbreviated,
    /// A wide 12-hour day-period name.
    Wide,
    /// A narrow 12-hour day-period name; the narrow form must be unique.
    Narrow,
}

impl DayPeriodNameLength {
    /// The backend attribute under which these names are filed.
    pub fn to_attributes(self) -> (r: NameAttribute)
        ensures
            r == self.spec_to_attributes(),
    {
        let length = match self {
            DayPeriodNameLength::Abbreviated => AttrLength::Abbr,
            DayPeriodNameLength::Wide => AttrLength::Wide,
            DayPeriodNameLength::Narrow => AttrLength::Narrow,
        };
        NameAttribute { context: AttrContext::Format, length }
    }

    pub open spec fn spec_to_attributes(self) -> NameAttribute {
        NameAttribute {
            context: AttrContext::Format,
            length: match self {
                DayPeriodNameLength::Abbreviated => AttrLength::Abbr,
                DayPeriodNameLength::Wide => AttrLength::Wide,
                DayPeriodNameLength::Narrow => AttrLength::Narrow,
            },
        }
    }

    /// The descriptor selected by a day-period field.  The names for the
    /// am-pm and the noon-midnight symbols are filed together, and lengths
    /// 1 to 3 all select the abbreviated names.
    pub fn from_field(field_symbol: DayPeriod, field_length: FieldLength) -> (r: Option<Self>)
        ensures
            r == Self::spec_from_field(field_symbol, field_length),
    {
        let field_length = field_length.numeric_to_abbr();
        match field_length {
            FieldLength::Three => Some(DayPeriodNameLength::Abbreviated),
            FieldLength::Four => Some(DayPeriodNameLength::Wide),
            FieldLength::Five => Some(DayPeriodNameLength::Narrow),
            _ => None,
        }
    }

    pub open spec fn spec_from_field(field_symbol: DayPeriod, field_length: FieldLength) -> Option<
        Self,
    > {
        match field_length.spec_numeric_to_abbr() {
            FieldLength::Three => Some(DayPeriodNameLength::Abbreviated),
            FieldLength::Four => Some(DayPeriodNameLength::Wide),
            FieldLength::Five => Some(DayPeriodNameLength::Narrow),
            _ => None,
        }
    }

    /// A field sufficient for error reporting: both day-period symbols are
    /// filed together, so the canonical field uses the am-pm symbol.
    pub fn to_approximate_error_field(self) -> (r: ErrorField)
        ensures
            r == self.spec_to_approximate_error_field(),
    {
        let field_length = match self {
            DayPeriodNameLength::Abbreviated => FieldLength::Three,
            DayPeriodNameLength::Wide => FieldLength::Four,
            DayPeriodNameLength::Narrow => FieldLength::Five,
        };
        ErrorField(Field { symbol: FieldSymbol::DayPeriod(DayPeriod::AmPm), length: field_length })
    }

    pub open spec fn spec_to_approximate_error_field(self) -> ErrorField {
        ErrorField(
            Field {
                symbol: FieldSymbol::DayPeriod(DayPeriod::AmPm),
                length: match self {
                    DayPeriodNameLength::Abbreviated => FieldLength::Three,
                    DayPeriodNameLength::Wide => FieldLength::Four,
                    DayPeriodNameLength::Narrow => FieldLength::Five,
                },
            },
        )
    }
}

/// The round trip from a day-period descriptor through its approximate
/// field and forward again is the identity.
pub proof fn lemma_day_period_name_length_round_trip(length: DayPeriodNameLength)
    ensures
        length.spec_to_approximate_error_field().0.symbol matches FieldSymbol::DayPeriod(p) &&
            DayPeriodNameLength::spec_from_field(
            p,
            length.spec_to_approximate_error_field().0.length,
        ) == Some(length),
{
}

} // verus!
