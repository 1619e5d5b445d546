//! The runtime value bundle a pattern is formatted against.
//!
//! Every field is independently possibly-absent: a bare time has no year,
//! an unknown zone has no offset.  Absence of a field the pattern needs is
//! an error surfaced per field during formatting, never a panic.

use vstd::prelude::*;

verus! {

/// A day of the week, numbered 1 (Monday) to 7 (Sunday) as in ISO-8601.
#[derive(Debug, Copy, Clone, PartialEq, Eq, Structural)]
pub enum IsoWeekday {
    Monday,
    Tuesday,
    Wednesday,
    Thursday,
    Friday,
    Saturday,
    Sunday,
}

impl IsoWeekday {
    /// The ISO-8601 number of the weekday, 1 to 7.
    pub fn number(self) -> (r: usize)
        ensures
            r == self.spec_number(),
            1 <= r <= 7,
    {
        match self {
            IsoWeekday::Monday => 1,
            IsoWeekday::Tuesday => 2,
            IsoWeekday::Wednesday => 3,
            IsoWeekday::Thursday => 4,
            IsoWeekday::Friday => 5,
            IsoWeekday::Saturday => 6,
            IsoWeekday::Sunday => 7,
        }
    }

    pub open spec fn spec_number(self) -> usize {
        match self {
            IsoWeekday::Monday => 1usize,
            IsoWeekday::Tuesday => 2usize,
            IsoWeekday::Wednesday => 3usize,
            IsoWeekday::Thursday => 4usize,
            IsoWeekday::Friday => 5usize,
            IsoWeekday::Saturday => 6usize,
            IsoWeekday::Sunday => 7usize,
        }
    }
}

/// Whether the given character is an ASCII digit.
pub open spec fn spec_is_digit(c: char) -> bool {
    48 <= c as u32 <= 57
}

/// The value of an ASCII digit character.
pub open spec fn spec_digit_value(c: char) -> int {
    c as u32 - 48
}

/// The parse of a month code: `M` followed by two digits names a regular
/// month by its one-based number, and a trailing `L` names the leap
/// variant of that month.  Anything else does not parse.
pub open spec fn spec_parse_month_code(s: Seq<char>) -> Option<(int, bool)> {
    if s.len() == 3 && s[0] == 'M' && spec_is_digit(s[1]) && spec_is_digit(s[2]) {
        Some((10 * spec_digit_value(s[1]) + spec_digit_value(s[2]), false))
    } else if s.len() == 4 && s[0] == 'M' && spec_is_digit(s[1]) && spec_is_digit(s[2]) && s[3]
        == 'L' {
        Some((10 * spec_digit_value(s[1]) + spec_digit_value(s[2]), true))
    } else {
        None
    }
}

/// Parses a month code into its one-based month number and leap flag.
pub fn parse_month_code(s: &str) -> (r: Option<(u8, bool)>)
    ensures
        match r {
            Some((n, leap)) => spec_parse_month_code(s@) == Some((n as int, leap)),
            None => spec_parse_month_code(s@) is None,
        },
{
    let len = s.unicode_len();
    if len != 3 && len != 4 {
        return None;
    }
    let c0 = s.get_char(0);
    let c1 = s.get_char(1);
    let c2 = s.get_char(2);
    if c0 != 'M' {
        return None;
    }
    let v1 = c1 as u32;
    let v2 = c2 as u32;
    if v1 < 48 || v1 > 57 || v2 < 48 || v2 > 57 {
        return None;
    }
    let number: u32 = 10 * (v1 - 48) + (v2 - 48);
    if len == 4 {
        let c3 = s.get_char(3);
        if c3 == 'L' {
            Some((number as u8, true))
        } else {
            None
        }
    } else {
        Some((number as u8, false))
    }
}

/// The era of a runtime year: a code for calendars with variable eras, or
/// a fixed era index for calendars with a fixed era table.
#[derive(Debug, Clone)]
pub enum FormattingEra {
    /// An era code, such as "ce".
    Code(String),
    /// A fixed era index.
    Index(u8),
}

/// The model of a [`FormattingEra`].
pub enum FormattingEraModel {
    Code(Seq<char>),
    Index(u8),
}

impl View for FormattingEra {
    type V = FormattingEraModel;

    open spec fn view(&self) -> FormattingEraModel {
        match self {
            FormattingEra::Code(s) => FormattingEraModel::Code(s@),
            FormattingEra::Index(i) => FormattingEraModel::Index(*i),
        }
    }
}

/// The year parts of a runtime value.
#[derive(Debug, Clone)]
pub struct YearInfo {
    /// The number the calendar-year field renders.
    pub year_number: i64,
    /// The era, where the calendar has one.
    pub era: Option<FormattingEra>,
    /// The one-based cyclic year number, where the calendar counts years
    /// in cycles.
    pub cyclic: Option<u8>,
    /// The related ISO year, rendered as ASCII digits.
    pub related_iso: Option<i64>,
}

/// The model of a [`YearInfo`].
pub struct YearInfoModel {
    pub year_number: i64,
    pub era: Option<FormattingEraModel>,
    pub cyclic: Option<u8>,
    pub related_iso: Option<i64>,
}

impl View for YearInfo {
    type V = YearInfoModel;

    open spec fn view(&self) -> YearInfoModel {
        YearInfoModel {
            year_number: self.year_number,
            era: match &self.era {
                Some(e) => Some(e@),
                None => None,
            },
            cyclic: self.cyclic,
            related_iso: self.related_iso,
        }
    }
}

/// The month parts of a runtime value.
#[derive(Debug, Clone)]
pub struct MonthInfo {
    /// The month code, such as "M01" or "M06L".
    pub code: String,
    /// The one-based month number the numeric month fields render.
    pub ordinal: u8,
}

/// The model of a [`MonthInfo`].
pub struct MonthInfoModel {
    pub code: Seq<char>,
    pub ordinal: u8,
}

impl View for MonthInfo {
    type V = MonthInfoModel;

    open spec fn view(&self) -> MonthInfoModel {
        MonthInfoModel { code: self.code@, ordinal: self.ordinal }
    }
}

/// Whether a zone is on its standard or its daylight time.
#[derive(Debug, Copy, Clone, PartialEq, Eq, Structural)]
pub enum ZoneVariant {
    Standard,
    Daylight,
}

/// The time-zone parts of a runtime value.  The resolution of an instant
/// and zone into these parts is a collaborator's business.
#[derive(Debug, Clone)]
pub struct ZoneInput {
    /// The offset from UTC in seconds, where known.
    pub offset_seconds: Option<i32>,
    /// The zone identifier, such as "gblon", where known.
    pub zone_id: Option<String>,
    /// The variant in effect, where known.
    pub variant: Option<ZoneVariant>,
}

/// The model of a [`ZoneInput`].
pub struct ZoneInputModel {
    pub offset_seconds: Option<i32>,
    pub zone_id: Option<Seq<char>>,
    pub variant: Option<ZoneVariant>,
}

impl View for ZoneInput {
    type V = ZoneInputModel;

    open spec fn view(&self) -> ZoneInputModel {
        ZoneInputModel {
            offset_seconds: self.offset_seconds,
            zone_id: match &self.zone_id {
                Some(s) => Some(s@),
                None => None,
            },
            variant: self.variant,
        }
    }
}

/// The runtime value bundle: each part independently possibly-absent.
#[derive(Debug, Clone)]
pub struct RuntimeInput {
    pub year: Option<YearInfo>,
    pub month: Option<MonthInfo>,
    /// The one-based day of the month.
    pub day_of_month: Option<u8>,
    /// The one-based day of the year.
    pub day_of_year: Option<u16>,
    /// The one-based occurrence of the weekday within the month.
    pub day_of_week_in_month: Option<u8>,
    pub iso_weekday: Option<IsoWeekday>,
    /// The hour of the day, 0 to 23.
    pub hour: Option<u8>,
    /// The minute of the hour, 0 to 59.
    pub minute: Option<u8>,
    /// The second of the minute, 0 to 60.
    pub second: Option<u8>,
    /// The subsecond in nanoseconds, below one billion.
    pub nanosecond: Option<u32>,
    pub zone: Option<ZoneInput>,
}

/// The model of a [`RuntimeInput`].
pub struct RuntimeInputModel {
    pub year: Option<YearInfoModel>,
    pub month: Option<MonthInfoModel>,
    pub day_of_month: Option<u8>,
    pub day_of_year: Option<u16>,
    pub day_of_week_in_month: Option<u8>,
    pub iso_weekday: Option<IsoWeekday>,
    pub hour: Option<u8>,
    pub minute: Option<u8>,
    pub second: Option<u8>,
    pub nanosecond: Option<u32>,
    pub zone: Option<ZoneInputModel>,
}

impl View for RuntimeInput {
    type V = RuntimeInputModel;

    open spec fn view(&self) -> RuntimeInputModel {
        RuntimeInputModel {
            year: match &self.year {
                Some(y) => Some(y@),
                None => None,
            },
            month: match &self.month {
                Some(m) => Some(m@),
                None => None,
            },
            day_of_month: self.day_of_month,
            day_of_year: self.day_of_year,
            day_of_week_in_month: self.day_of_week_in_month,
            iso_weekday: self.iso_weekday,
            hour: self.hour,
            minute: self.minute,
            second: self.second,
            nanosecond: self.nanosecond,
            zone: match &self.zone {
                Some(z) => Some(z@),
                None => None,
            },
        }
    }
}

impl RuntimeInput {
    /// The in-range conditions the present parts must satisfy.
    pub open spec fn well_formed(self) -> bool {
        &&& (self.hour matches Some(h) ==> h < 24)
        &&& (self.minute matches Some(m) ==> m < 60)
        &&& (self.second matches Some(s) ==> s <= 60)
        &&& (self.nanosecond matches Some(n) ==> n < 1000000000)
        &&& (self.month matches Some(m) ==> m.ordinal >= 1)
        &&& (self.year matches Some(y) ==> {
            &&& y.year_number > i64::MIN
            &&& (y.cyclic matches Some(c) ==> c >= 1)
            &&& (y.related_iso matches Some(r) ==> r > i64::MIN)
        })
    }

    /// A bundle with every part absent.
    pub fn empty() -> (r: Self)
        ensures
            r@.year is None,
            r@.month is None,
            r@.day_of_month is None,
            r@.day_of_year is None,
            r@.day_of_week_in_month is None,
            r@.iso_weekday is None,
            r@.hour is None,
            r@.minute is None,
            r@.second is None,
            r@.nanosecond is None,
            r@.zone is None,
            r.well_formed(),
    {
        RuntimeInput {
            year: None,
            month: None,
            day_of_month: None,
            day_of_year: None,
            day_of_week_in_month: None,
            iso_weekday: None,
            hour: None,
            minute: None,
            second: None,
            nanosecond: None,
            zone: None,
        }
    }
}

} // verus!
