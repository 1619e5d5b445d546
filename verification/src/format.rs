//! The pattern interpreter: walks the item sequence, copies literals,
//! resolves fields against the loaded names or renders them numerically,
//! and emits an annotated output.
//!
//! Interpretation never aborts: a field that cannot be resolved degrades
//! to a bracket placeholder, or to plain ASCII digits where only the digit
//! symbols are missing, and only the first error is surfaced as the
//! call's overall result.  Every produced span is attributed to a semantic
//! part, and failed spans carry the error part besides.

use vstd::prelude::*;
use crate::data::{DecimalSymbolsModel, NameEntryModel};
use crate::decimal::{
    format_number, format_signed_number, spec_number_text, spec_signed_number_text,
};
use crate::errors::{
    DateTimeWriteError, GetNameForCyclicYearError, GetNameForEraError, GetNameForMonthError,
};
use crate::fields::{
    Day, DayPeriod, DecimalSecond, ErrorField, Field, FieldLength, FieldSymbol, Hour, Month,
    Second, TimeZone, Weekday, Year,
};
use crate::input::{
    FormattingEraModel, RuntimeInputModel, ZoneInputModel, ZoneVariant,
};
use crate::names::{
    MonthPlaceholderModel, NamesModel, spec_get_name_for_cyclic, spec_get_name_for_day_period,
    spec_get_name_for_era, spec_get_name_for_month, spec_get_name_for_weekday,
};
use crate::slots::SlotModel;
use crate::zone::{
    spec_iso_offset_text, spec_localized_offset_text, spec_zone_name, spec_zone_specific_name,
};
use crate::names::spec_lookup_name;

verus! {

/// The semantic attribution of a span of formatted output.
#[derive(Debug, Copy, Clone, PartialEq, Eq, Structural)]
pub enum Part {
    Era,
    Year,
    Month,
    Day,
    Weekday,
    DayPeriod,
    Hour,
    Minute,
    Second,
    TimeZoneName,
    /// The span could not be resolved and holds fallback text.
    Error,
    /// The digits of a numeric span.
    Integer,
    /// The decimal separator of a fractional-second span.
    Decimal,
    /// The fractional digits of a fractional-second span.
    Fraction,
}

/// One annotation of the formatted output: the half-open character range
/// `start..end` carries the part.
#[derive(Debug, Copy, Clone, PartialEq, Eq, Structural)]
pub struct FormattedPart {
    pub start: usize,
    pub end: usize,
    pub part: Part,
}

/// The model of an annotation, over unbounded positions.
pub struct PartModel {
    pub start: int,
    pub end: int,
    pub part: Part,
}

impl View for FormattedPart {
    type V = PartModel;

    open spec fn view(&self) -> PartModel {
        PartModel { start: self.start as int, end: self.end as int, part: self.part }
    }
}

/// The model of a formatting error.
pub enum WriteErrorModel {
    MissingInputField(Seq<char>),
    NamesNotLoaded(crate::fields::ErrorField),
    FixedDecimalFormatterNotLoaded,
    InvalidMonthCode,
    InvalidEraCode,
    InvalidYearNumber { max: usize },
}

impl View for DateTimeWriteError {
    type V = WriteErrorModel;

    open spec fn view(&self) -> WriteErrorModel {
        match self {
            DateTimeWriteError::MissingInputField(name) => WriteErrorModel::MissingInputField(
                name@,
            ),
            DateTimeWriteError::NamesNotLoaded(f) => WriteErrorModel::NamesNotLoaded(*f),
            DateTimeWriteError::FixedDecimalFormatterNotLoaded => WriteErrorModel::FixedDecimalFormatterNotLoaded,
            DateTimeWriteError::InvalidMonthCode => WriteErrorModel::InvalidMonthCode,
            DateTimeWriteError::InvalidEraCode => WriteErrorModel::InvalidEraCode,
            DateTimeWriteError::InvalidYearNumber { max } => WriteErrorModel::InvalidYearNumber {
                max: *max,
            },
        }
    }
}

/// The model of an optional formatting error.
pub open spec fn error_view(e: Option<DateTimeWriteError>) -> Option<WriteErrorModel> {
    match e {
        Some(err) => Some(err@),
        None => None,
    }
}

/// What one item contributes to the output: its text, its annotations
/// with positions relative to the start of the text, and its error.
pub struct RenderModel {
    pub text: Seq<char>,
    pub parts: Seq<PartModel>,
    pub error: Option<WriteErrorModel>,
}

/// Every annotation of a render lies within its text.
pub open spec fn render_wf(r: RenderModel) -> bool {
    forall|i: int|
        0 <= i < r.parts.len() ==> 0 <= #[trigger] r.parts[i].start <= r.parts[i].end
            <= r.text.len()
}

/// The bracket placeholder of a field: its canonical letter in braces.
pub open spec fn spec_placeholder(symbol: FieldSymbol) -> Seq<char> {
    "{"@ + symbol.spec_canonical_letter() + "}"@
}

/// A render that could not resolve: the bracket placeholder, the error
/// part, the field's semantic part, and the carried error.
pub open spec fn spec_failed_render(
    symbol: FieldSymbol,
    part: Part,
    error: WriteErrorModel,
) -> RenderModel {
    let text = spec_placeholder(symbol);
    RenderModel {
        text,
        parts: seq![
            PartModel { start: 0, end: text.len() as int, part: Part::Error },
            PartModel { start: 0, end: text.len() as int, part },
        ],
        error: Some(error),
    }
}

/// A successfully resolved name: the text under its semantic part alone.
pub open spec fn spec_name_render(text: Seq<char>, part: Part) -> RenderModel {
    RenderModel {
        text,
        parts: seq![PartModel { start: 0, end: text.len() as int, part }],
        error: None,
    }
}

/// A numeric render: through the digit symbols when they are loaded, with
/// the digit span marked besides the semantic part; as plain ASCII digits
/// tagged with the error part when they are not, which also records that
/// the numeric formatter was missing.
pub open spec fn spec_numeric_render(
    symbols: Option<DecimalSymbolsModel>,
    value: int,
    min: int,
    part: Part,
) -> RenderModel {
    match symbols {
        Some(sy) => {
            let text = spec_signed_number_text(value, min, Some(sy));
            RenderModel {
                text,
                parts: seq![
                    PartModel { start: 0, end: text.len() as int, part },
                    PartModel { start: 0, end: text.len() as int, part: Part::Integer },
                ],
                error: None,
            }
        },
        None => {
            let text = spec_signed_number_text(value, min, None);
            RenderModel {
                text,
                parts: seq![
                    PartModel { start: 0, end: text.len() as int, part: Part::Error },
                    PartModel { start: 0, end: text.len() as int, part },
                ],
                error: Some(WriteErrorModel::FixedDecimalFormatterNotLoaded),
            }
        },
    }
}

/// Builds the bracket placeholder of a field.
pub fn placeholder_text(symbol: FieldSymbol) -> (r: String)
    ensures
        r@ == spec_placeholder(symbol),
{
    proof {
        reveal_strlit("{");
        reveal_strlit("}");
    }
    let mut out = String::from_str("{");
    out.append(symbol.canonical_letter());
    out.append("}");
    out
}

/// Whether the runtime value sits exactly at the top of its hour: absent
/// minutes, seconds and subseconds count as zero.
pub open spec fn spec_top_of_hour(input: RuntimeInputModel) -> bool {
    &&& (input.minute matches Some(m) ==> m == 0)
    &&& (input.second matches Some(s) ==> s == 0)
    &&& (input.nanosecond matches Some(n) ==> n == 0)
}

/// The metazone lookup entries, empty when the table is not loaded.
pub open spec fn spec_periods(m: NamesModel) -> Seq<NameEntryModel> {
    match m.mz_periods {
        SlotModel::Loaded(_, t) => t.entries,
        SlotModel::Empty => Seq::empty(),
    }
}

/// The location format of a zone: its name from the localized table,
/// else from the root table, wrapped in the affixes of the table the name
/// came from; nothing when neither table knows the zone.
pub open spec fn spec_location_text(m: NamesModel, zone_id: Seq<char>) -> Option<Seq<char>> {
    let root: Option<Seq<char>> = match m.locations_root {
        SlotModel::Loaded(_, t) => match spec_lookup_name(t.entries, zone_id) {
            Some(name) => Some(t.format_prefix + name + t.format_suffix),
            None => None,
        },
        SlotModel::Empty => None,
    };
    match m.locations {
        SlotModel::Loaded(_, t) => match spec_lookup_name(t.entries, zone_id) {
            Some(name) => Some(t.format_prefix + name + t.format_suffix),
            None => root,
        },
        SlotModel::Empty => root,
    }
}

/// The localized-offset render used by the offset symbol and as the last
/// fallback of the name symbols: the zero name for the zero offset, and
/// otherwise digits through the numeric formatter, degrading to ASCII
/// digits with an error when it is missing.
pub open spec fn spec_offset_render(m: NamesModel, z: ZoneInputModel, long: bool, f: Field) -> RenderModel {
    match m.zone_essentials {
        SlotModel::Empty => spec_failed_render(
            f.symbol,
            Part::TimeZoneName,
            WriteErrorModel::NamesNotLoaded(ErrorField(f)),
        ),
        SlotModel::Loaded(_, ess) => match z.offset_seconds {
            None => spec_failed_render(
                f.symbol,
                Part::TimeZoneName,
                WriteErrorModel::MissingInputField("offset"@),
            ),
            Some(off) => if off == 0 {
                spec_name_render(ess.offset_zero, Part::TimeZoneName)
            } else {
                match m.fixed_decimal_formatter {
                    Some(sy) => spec_name_render(
                        spec_localized_offset_text(ess, Some(sy), off as int, long),
                        Part::TimeZoneName,
                    ),
                    None => {
                        let text = spec_localized_offset_text(ess, None, off as int, long);
                        RenderModel {
                            text,
                            parts: seq![
                                PartModel { start: 0, end: text.len() as int, part: Part::Error },
                                PartModel {
                                    start: 0,
                                    end: text.len() as int,
                                    part: Part::TimeZoneName,
                                },
                            ],
                            error: Some(WriteErrorModel::FixedDecimalFormatterNotLoaded),
                        }
                    },
                }
            },
        },
    }
}

/// The render of a time-zone field against a present zone input.
#[verifier::opaque]
pub open spec fn spec_render_zone(m: NamesModel, z: ZoneInputModel, f: Field) -> RenderModel {
    match (f.symbol, f.length) {
        (FieldSymbol::TimeZone(TimeZone::Iso | TimeZone::IsoWithZ), _) => match z.offset_seconds {
            None => spec_failed_render(
                f.symbol,
                Part::TimeZoneName,
                WriteErrorModel::MissingInputField("offset"@),
            ),
            Some(off) => spec_name_render(
                spec_iso_offset_text(
                    off as int,
                    f.length is Three || f.length is Five,
                    f.symbol == FieldSymbol::TimeZone(TimeZone::IsoWithZ),
                ),
                Part::TimeZoneName,
            ),
        },
        (FieldSymbol::TimeZone(TimeZone::LocalizedOffset), _) => spec_offset_render(
            m,
            z,
            f.length is Four,
            f,
        ),
        (FieldSymbol::TimeZone(TimeZone::SpecificNonLocation), _) => {
            let long = f.length is Four;
            let slot = if long {
                m.mz_specific_long
            } else {
                m.mz_specific_short
            };
            match slot {
                SlotModel::Empty => spec_failed_render(
                    f.symbol,
                    Part::TimeZoneName,
                    WriteErrorModel::NamesNotLoaded(ErrorField(f)),
                ),
                SlotModel::Loaded(_, table) => match z.zone_id {
                    None => spec_failed_render(
                        f.symbol,
                        Part::TimeZoneName,
                        WriteErrorModel::MissingInputField("time_zone_id"@),
                    ),
                    Some(id) => {
                        let variant = match z.variant {
                            Some(v) => v,
                            None => ZoneVariant::Standard,
                        };
                        match spec_zone_specific_name(table.entries, spec_periods(m), id, variant) {
                            Some(name) => spec_name_render(name, Part::TimeZoneName),
                            None => if long {
                                match spec_location_text(m, id) {
                                    Some(text) => spec_name_render(text, Part::TimeZoneName),
                                    None => spec_offset_render(m, z, true, f),
                                }
                            } else {
                                spec_offset_render(m, z, false, f)
                            },
                        }
                    },
                },
            }
        },
        (FieldSymbol::TimeZone(TimeZone::GenericNonLocation), _) => {
            let long = f.length is Four;
            let slot = if long {
                m.mz_generic_long
            } else {
                m.mz_generic_short
            };
            match slot {
                SlotModel::Empty => spec_failed_render(
                    f.symbol,
                    Part::TimeZoneName,
                    WriteErrorModel::NamesNotLoaded(ErrorField(f)),
                ),
                SlotModel::Loaded(_, table) => match z.zone_id {
                    None => spec_failed_render(
                        f.symbol,
                        Part::TimeZoneName,
                        WriteErrorModel::MissingInputField("time_zone_id"@),
                    ),
                    Some(id) => match spec_zone_name(table.entries, spec_periods(m), id) {
                        Some(name) => spec_name_render(name, Part::TimeZoneName),
                        None => match spec_location_text(m, id) {
                            Some(text) => spec_name_render(text, Part::TimeZoneName),
                            None => spec_offset_render(m, z, long, f),
                        },
                    },
                },
            }
        },
        (FieldSymbol::TimeZone(TimeZone::Location), FieldLength::One) => match z.zone_id {
            None => spec_failed_render(
                f.symbol,
                Part::TimeZoneName,
                WriteErrorModel::MissingInputField("time_zone_id"@),
            ),
            Some(id) => spec_name_render(id, Part::TimeZoneName),
        },
        (FieldSymbol::TimeZone(TimeZone::Location), FieldLength::Three) => match m.exemplars {
            SlotModel::Empty => spec_failed_render(
                f.symbol,
                Part::TimeZoneName,
                WriteErrorModel::NamesNotLoaded(ErrorField(f)),
            ),
            SlotModel::Loaded(_, table) => match z.zone_id {
                None => spec_failed_render(
                    f.symbol,
                    Part::TimeZoneName,
                    WriteErrorModel::MissingInputField("time_zone_id"@),
                ),
                Some(id) => match spec_lookup_name(table.entries, id) {
                    Some(city) => spec_name_render(city, Part::TimeZoneName),
                    None => {
                        let root: Option<Seq<char>> = match m.exemplars_root {
                            SlotModel::Loaded(_, rt) => spec_lookup_name(rt.entries, id),
                            SlotModel::Empty => None,
                        };
                        match root {
                            Some(city) => spec_name_render(city, Part::TimeZoneName),
                            None => match spec_location_text(m, id) {
                                Some(text) => spec_name_render(text, Part::TimeZoneName),
                                None => spec_name_render(id, Part::TimeZoneName),
                            },
                        }
                    },
                },
            },
        },
        (FieldSymbol::TimeZone(TimeZone::Location), _) => match m.locations {
            SlotModel::Empty => spec_failed_render(
                f.symbol,
                Part::TimeZoneName,
                WriteErrorModel::NamesNotLoaded(ErrorField(f)),
            ),
            SlotModel::Loaded(_, _) => match z.zone_id {
                None => spec_failed_render(
                    f.symbol,
                    Part::TimeZoneName,
                    WriteErrorModel::MissingInputField("time_zone_id"@),
                ),
                Some(id) => match spec_location_text(m, id) {
                    Some(text) => spec_name_render(text, Part::TimeZoneName),
                    None => spec_offset_render(m, z, true, f),
                },
            },
        },
        _ => spec_failed_render(
            f.symbol,
            Part::TimeZoneName,
            WriteErrorModel::NamesNotLoaded(ErrorField(f)),
        ),
    }
}

/// The number of nanoseconds each fractional digit position stands for.
pub open spec fn spec_subsecond_divisor(d: DecimalSecond) -> int {
    match d {
        DecimalSecond::Subsecond1 => 100000000,
        DecimalSecond::Subsecond2 => 10000000,
        DecimalSecond::Subsecond3 => 1000000,
        DecimalSecond::Subsecond4 => 100000,
        DecimalSecond::Subsecond5 => 10000,
        DecimalSecond::Subsecond6 => 1000,
        DecimalSecond::Subsecond7 => 100,
        DecimalSecond::Subsecond8 => 10,
        DecimalSecond::Subsecond9 => 1,
    }
}

/// The render of a fractional second: the padded seconds, the decimal
/// separator, and the leading subsecond digits, the whole span marked as
/// the second with its numeric sub-spans, or ASCII with an error when the
/// numeric formatter is missing.
pub open spec fn spec_decimal_second_render(
    m: NamesModel,
    seconds: int,
    nanosecond: int,
    min: int,
    digits: DecimalSecond,
) -> RenderModel {
    let fraction = nanosecond / spec_subsecond_divisor(digits);
    let n = digits.spec_digits() as int;
    match m.fixed_decimal_formatter {
        Some(sy) => {
            let int_text = spec_number_text(seconds, min, Some(sy));
            let sep = sy.decimal_separator;
            let frac_text = spec_number_text(fraction, n, Some(sy));
            let text = int_text + sep + frac_text;
            RenderModel {
                text,
                parts: seq![
                    PartModel { start: 0, end: text.len() as int, part: Part::Second },
                    PartModel { start: 0, end: int_text.len() as int, part: Part::Integer },
                    PartModel {
                        start: int_text.len() as int,
                        end: (int_text.len() + sep.len()) as int,
                        part: Part::Decimal,
                    },
                    PartModel {
                        start: (int_text.len() + sep.len()) as int,
                        end: text.len() as int,
                        part: Part::Fraction,
                    },
                ],
                error: None,
            }
        },
        None => {
            let text = spec_number_text(seconds, min, None) + "."@ + spec_number_text(
                fraction,
                n,
                None,
            );
            RenderModel {
                text,
                parts: seq![
                    PartModel { start: 0, end: text.len() as int, part: Part::Error },
                    PartModel { start: 0, end: text.len() as int, part: Part::Second },
                ],
                error: Some(WriteErrorModel::FixedDecimalFormatterNotLoaded),
            }
        },
    }
}

/// The render of one field against the loaded names and the runtime
/// value: the dispatch over every symbol, with each category's lookup,
/// numeric rendering, and degradation exactly as the resolver and the
/// numeric helpers define them.
#[verifier::opaque]
pub open spec fn spec_render_field(m: NamesModel, input: RuntimeInputModel, f: Field) -> RenderModel {
    match f.symbol {
        FieldSymbol::Era => match input.year {
            None => spec_failed_render(
                f.symbol,
                Part::Era,
                WriteErrorModel::MissingInputField("year"@),
            ),
            Some(y) => match y.era {
                None => spec_failed_render(
                    f.symbol,
                    Part::Era,
                    WriteErrorModel::MissingInputField("era"@),
                ),
                Some(era) => match spec_get_name_for_era(m.year_names, f.length, era) {
                    Ok(name) => spec_name_render(name, Part::Era),
                    Err(GetNameForEraError::InvalidEraCode) => match era {
                        FormattingEraModel::Code(code) => RenderModel {
                            text: code,
                            parts: seq![
                                PartModel { start: 0, end: code.len() as int, part: Part::Error },
                                PartModel { start: 0, end: code.len() as int, part: Part::Era },
                            ],
                            error: Some(WriteErrorModel::InvalidEraCode),
                        },
                        FormattingEraModel::Index(_) => spec_failed_render(
                            f.symbol,
                            Part::Era,
                            WriteErrorModel::InvalidEraCode,
                        ),
                    },
                    Err(_) => spec_failed_render(
                        f.symbol,
                        Part::Era,
                        WriteErrorModel::NamesNotLoaded(ErrorField(f)),
                    ),
                },
            },
        },
        FieldSymbol::Year(Year::Calendar) => match input.year {
            None => spec_failed_render(
                f.symbol,
                Part::Year,
                WriteErrorModel::MissingInputField("year"@),
            ),
            Some(y) => if f.length is Two {
                spec_numeric_render(
                    m.fixed_decimal_formatter,
                    (if y.year_number < 0 {
                        -y.year_number
                    } else {
                        y.year_number as int
                    }) % 100,
                    2,
                    Part::Year,
                )
            } else {
                spec_numeric_render(
                    m.fixed_decimal_formatter,
                    y.year_number as int,
                    f.length.spec_usize() as int,
                    Part::Year,
                )
            },
        },
        FieldSymbol::Year(Year::RelatedIso) => match input.year {
            None => spec_failed_render(
                f.symbol,
                Part::Year,
                WriteErrorModel::MissingInputField("year_related_iso"@),
            ),
            Some(y) => match y.related_iso {
                None => spec_failed_render(
                    f.symbol,
                    Part::Year,
                    WriteErrorModel::MissingInputField("year_related_iso"@),
                ),
                Some(related) => {
                    let text = spec_signed_number_text(
                        related as int,
                        f.length.spec_usize() as int,
                        None,
                    );
                    RenderModel {
                        text,
                        parts: seq![
                            PartModel { start: 0, end: text.len() as int, part: Part::Year },
                            PartModel { start: 0, end: text.len() as int, part: Part::Integer },
                        ],
                        error: None,
                    }
                },
            },
        },
        FieldSymbol::Year(Year::Cyclic) => match input.year {
            None => spec_failed_render(
                f.symbol,
                Part::Year,
                WriteErrorModel::MissingInputField("year"@),
            ),
            Some(y) => match y.cyclic {
                None => spec_failed_render(
                    f.symbol,
                    Part::Year,
                    WriteErrorModel::MissingInputField("year_cyclic"@),
                ),
                Some(cyclic) => match spec_get_name_for_cyclic(m.year_names, f.length, cyclic) {
                    Ok(name) => spec_name_render(name, Part::Year),
                    Err(GetNameForCyclicYearError::InvalidYearNumber { max }) => spec_failed_render(
                        f.symbol,
                        Part::Year,
                        WriteErrorModel::InvalidYearNumber { max },
                    ),
                    Err(_) => spec_failed_render(
                        f.symbol,
                        Part::Year,
                        WriteErrorModel::NamesNotLoaded(ErrorField(f)),
                    ),
                },
            },
        },
        FieldSymbol::Month(month_symbol) => match input.month {
            None => spec_failed_render(
                f.symbol,
                Part::Month,
                WriteErrorModel::MissingInputField("month"@),
            ),
            Some(month) => match f.length {
                FieldLength::One | FieldLength::Two => spec_numeric_render(
                    m.fixed_decimal_formatter,
                    month.ordinal as int,
                    f.length.spec_usize() as int,
                    Part::Month,
                ),
                _ => match spec_get_name_for_month(
                    m.month_names,
                    month_symbol,
                    f.length,
                    month.code,
                ) {
                    Ok(MonthPlaceholderModel::PlainString(name)) => spec_name_render(
                        name,
                        Part::Month,
                    ),
                    Ok(MonthPlaceholderModel::Numeric) => spec_numeric_render(
                        m.fixed_decimal_formatter,
                        month.ordinal as int,
                        1,
                        Part::Month,
                    ),
                    Ok(MonthPlaceholderModel::NumericPattern(marker)) => {
                        match m.fixed_decimal_formatter {
                            Some(sy) => {
                                let text = marker + spec_number_text(
                                    month.ordinal as int,
                                    1,
                                    Some(sy),
                                );
                                RenderModel {
                                    text,
                                    parts: seq![
                                        PartModel {
                                            start: 0,
                                            end: text.len() as int,
                                            part: Part::Month,
                                        },
                                    ],
                                    error: None,
                                }
                            },
                            None => {
                                let text = marker + spec_number_text(month.ordinal as int, 1, None);
                                RenderModel {
                                    text,
                                    parts: seq![
                                        PartModel {
                                            start: 0,
                                            end: text.len() as int,
                                            part: Part::Error,
                                        },
                                        PartModel {
                                            start: 0,
                                            end: text.len() as int,
                                            part: Part::Month,
                                        },
                                    ],
                                    error: Some(WriteErrorModel::FixedDecimalFormatterNotLoaded),
                                }
                            },
                        }
                    },
                    Err(GetNameForMonthError::InvalidMonthCode) => spec_failed_render(
                        f.symbol,
                        Part::Month,
                        WriteErrorModel::InvalidMonthCode,
                    ),
                    Err(_) => spec_failed_render(
                        f.symbol,
                        Part::Month,
                        WriteErrorModel::NamesNotLoaded(ErrorField(f)),
                    ),
                },
            },
        },
        FieldSymbol::Weekday(weekday_symbol) => match input.iso_weekday {
            None => spec_failed_render(
                f.symbol,
                Part::Weekday,
                WriteErrorModel::MissingInputField("iso_weekday"@),
            ),
            Some(day) => match spec_get_name_for_weekday(
                m.weekday_names,
                weekday_symbol,
                f.length,
                day,
            ) {
                Ok(name) => spec_name_render(name, Part::Weekday),
                Err(_) => spec_failed_render(
                    f.symbol,
                    Part::Weekday,
                    WriteErrorModel::NamesNotLoaded(ErrorField(f)),
                ),
            },
        },
        FieldSymbol::DayPeriod(period_symbol) => match input.hour {
            None => spec_failed_render(
                f.symbol,
                Part::DayPeriod,
                WriteErrorModel::MissingInputField("hour"@),
            ),
            Some(hour) => match spec_get_name_for_day_period(
                m.dayperiod_names,
                period_symbol,
                f.length,
                hour,
                spec_top_of_hour(input),
            ) {
                Ok(name) => spec_name_render(name, Part::DayPeriod),
                Err(_) => spec_failed_render(
                    f.symbol,
                    Part::DayPeriod,
                    WriteErrorModel::NamesNotLoaded(ErrorField(f)),
                ),
            },
        },
        FieldSymbol::Day(Day::DayOfMonth) => match input.day_of_month {
            None => spec_failed_render(
                f.symbol,
                Part::Day,
                WriteErrorModel::MissingInputField("day_of_month"@),
            ),
            Some(day) => spec_numeric_render(
                m.fixed_decimal_formatter,
                day as int,
                f.length.spec_usize() as int,
                Part::Day,
            ),
        },
        FieldSymbol::Day(Day::DayOfYear) => match input.day_of_year {
            None => spec_failed_render(
                f.symbol,
                Part::Day,
                WriteErrorModel::MissingInputField("day_of_year"@),
            ),
            Some(day) => spec_numeric_render(
                m.fixed_decimal_formatter,
                day as int,
                f.length.spec_usize() as int,
                Part::Day,
            ),
        },
        FieldSymbol::Day(Day::DayOfWeekInMonth) => match input.day_of_week_in_month {
            None => spec_failed_render(
                f.symbol,
                Part::Day,
                WriteErrorModel::MissingInputField("day_of_week_in_month"@),
            ),
            Some(day) => spec_numeric_render(
                m.fixed_decimal_formatter,
                day as int,
                f.length.spec_usize() as int,
                Part::Day,
            ),
        },
        FieldSymbol::Hour(hour_symbol) => match input.hour {
            None => spec_failed_render(
                f.symbol,
                Part::Hour,
                WriteErrorModel::MissingInputField("hour"@),
            ),
            Some(hour) => {
                let value: int = match hour_symbol {
                    Hour::H23 => hour as int,
                    Hour::H11 => hour as int % 12,
                    Hour::H12 => if hour as int % 12 == 0 {
                        12
                    } else {
                        hour as int % 12
                    },
                    Hour::H24 => if hour == 0 {
                        24
                    } else {
                        hour as int
                    },
                };
                spec_numeric_render(
                    m.fixed_decimal_formatter,
                    value,
                    f.length.spec_usize() as int,
                    Part::Hour,
                )
            },
        },
        FieldSymbol::Minute => match input.minute {
            None => spec_failed_render(
                f.symbol,
                Part::Minute,
                WriteErrorModel::MissingInputField("minute"@),
            ),
            Some(minute) => spec_numeric_render(
                m.fixed_decimal_formatter,
                minute as int,
                f.length.spec_usize() as int,
                Part::Minute,
            ),
        },
        FieldSymbol::Second(Second::Second) => match input.second {
            None => spec_failed_render(
                f.symbol,
                Part::Second,
                WriteErrorModel::MissingInputField("second"@),
            ),
            Some(second) => spec_numeric_render(
                m.fixed_decimal_formatter,
                second as int,
                f.length.spec_usize() as int,
                Part::Second,
            ),
        },
        FieldSymbol::Second(Second::MillisInDay) => match (input.hour, input.minute, input.second) {
            (None, _, _) => spec_failed_render(
                f.symbol,
                Part::Second,
                WriteErrorModel::MissingInputField("hour"@),
            ),
            (_, None, _) => spec_failed_render(
                f.symbol,
                Part::Second,
                WriteErrorModel::MissingInputField("minute"@),
            ),
            (_, _, None) => spec_failed_render(
                f.symbol,
                Part::Second,
                WriteErrorModel::MissingInputField("second"@),
            ),
            (Some(hour), Some(minute), Some(second)) => {
                let nanos: int = match input.nanosecond {
                    Some(n) => n as int,
                    None => 0,
                };
                spec_numeric_render(
                    m.fixed_decimal_formatter,
                    hour as int * 3600000 + minute as int * 60000 + second as int * 1000 + nanos
                        / 1000000,
                    f.length.spec_usize() as int,
                    Part::Second,
                )
            },
        },
        FieldSymbol::DecimalSecond(digits) => match input.second {
            None => spec_failed_render(
                f.symbol,
                Part::Second,
                WriteErrorModel::MissingInputField("second"@),
            ),
            Some(second) => spec_decimal_second_render(
                m,
                second as int,
                match input.nanosecond {
                    Some(n) => n as int,
                    None => 0,
                },
                f.length.spec_usize() as int,
                digits,
            ),
        },
        FieldSymbol::TimeZone(_) => match input.zone {
            None => spec_failed_render(
                f.symbol,
                Part::TimeZoneName,
                WriteErrorModel::MissingInputField("time_zone"@),
            ),
            Some(z) => spec_render_zone(m, z, f),
        },
    }
}

/// The models of a list of annotations.
pub open spec fn parts_view(v: Seq<FormattedPart>) -> Seq<PartModel> {
    v.map(|i: int, p: FormattedPart| p@)
}

/// The model of one item's rendered text, annotations, and error.
pub open spec fn render_view(r: (String, Vec<FormattedPart>, Option<DateTimeWriteError>)) -> RenderModel {
    RenderModel { text: r.0@, parts: parts_view(r.1@), error: error_view(r.2) }
}

/// Builds a failed render: the placeholder under the error part and the
/// semantic part.
fn failed_render(f: Field, part: Part, error: DateTimeWriteError) -> (r: (
    String,
    Vec<FormattedPart>,
    Option<DateTimeWriteError>,
))
    ensures
        render_view(r) == spec_failed_render(f.symbol, part, error@),
        render_wf(render_view(r)),
{
    let text = placeholder_text(f.symbol);
    let len = text.as_str().unicode_len();
    let mut parts: Vec<FormattedPart> = Vec::new();
    parts.push(FormattedPart { start: 0, end: len, part: Part::Error });
    parts.push(FormattedPart { start: 0, end: len, part });
    proof {
        assert(parts_view(parts@) =~= spec_failed_render(f.symbol, part, error@).parts);
    }
    (text, parts, Some(error))
}

/// Builds a successful name render: the text under its semantic part.
fn name_render(text: String, part: Part) -> (r: (
    String,
    Vec<FormattedPart>,
    Option<DateTimeWriteError>,
))
    ensures
        render_view(r) == spec_name_render(text@, part),
        render_wf(render_view(r)),
{
    let len = text.as_str().unicode_len();
    let mut parts: Vec<FormattedPart> = Vec::new();
    parts.push(FormattedPart { start: 0, end: len, part });
    proof {
        assert(parts_view(parts@) =~= spec_name_render(text@, part).parts);
    }
    (text, parts, None)
}

/// Builds a numeric render through the loaded digit symbols, or the
/// ASCII fallback with an error when they are missing.
fn numeric_render(names: &crate::names::DateTimeNames, value: i64, min: usize, part: Part) -> (r: (
    String,
    Vec<FormattedPart>,
    Option<DateTimeWriteError>,
))
    requires
        names@.wf(),
        value > i64::MIN,
    ensures
        render_view(r) == spec_numeric_render(
            names@.fixed_decimal_formatter,
            value as int,
            min as int,
            part,
        ),
        render_wf(render_view(r)),
{
    match &names.fixed_decimal_formatter {
        Some(sy) => {
            let text = format_signed_number(value, min, Some(sy));
            let len = text.as_str().unicode_len();
            let mut parts: Vec<FormattedPart> = Vec::new();
            parts.push(FormattedPart { start: 0, end: len, part });
            parts.push(FormattedPart { start: 0, end: len, part: Part::Integer });
            proof {
                assert(parts_view(parts@) =~= spec_numeric_render(
                    names@.fixed_decimal_formatter,
                    value as int,
                    min as int,
                    part,
                ).parts);
            }
            (text, parts, None)
        },
        None => {
            let text = format_signed_number(value, min, None);
            let len = text.as_str().unicode_len();
            let mut parts: Vec<FormattedPart> = Vec::new();
            parts.push(FormattedPart { start: 0, end: len, part: Part::Error });
            parts.push(FormattedPart { start: 0, end: len, part });
            proof {
                assert(parts_view(parts@) =~= spec_numeric_render(
                    names@.fixed_decimal_formatter,
                    value as int,
                    min as int,
                    part,
                ).parts);
            }
            (text, parts, Some(DateTimeWriteError::FixedDecimalFormatterNotLoaded))
        },
    }
}

/// Resolves the location format of a zone.
fn location_text(names: &crate::names::DateTimeNames, zone_id: &String) -> (r: Option<String>)
    ensures
        match r {
            Some(s) => spec_location_text(names@, zone_id@) == Some(s@),
            None => spec_location_text(names@, zone_id@) is None,
        },
{
    let root: Option<String> = match &names.locations_root {
        crate::slots::NameSlot::Loaded(_, t) => match crate::names::lookup_name(
            &t.entries,
            zone_id,
        ) {
            Some(name) => {
                let mut out = t.format_prefix.clone();
                out.append(name.as_str());
                out.append(t.format_suffix.as_str());
                Some(out)
            },
            None => None,
        },
        crate::slots::NameSlot::Empty => None,
    };
    match &names.locations {
        crate::slots::NameSlot::Loaded(_, t) => match crate::names::lookup_name(
            &t.entries,
            zone_id,
        ) {
            Some(name) => {
                let mut out = t.format_prefix.clone();
                out.append(name.as_str());
                out.append(t.format_suffix.as_str());
                Some(out)
            },
            None => root,
        },
        crate::slots::NameSlot::Empty => root,
    }
}

/// Renders the localized offset, with its degradations.
fn offset_render(
    names: &crate::names::DateTimeNames,
    zone: &crate::input::ZoneInput,
    long: bool,
    f: Field,
) -> (r: (String, Vec<FormattedPart>, Option<DateTimeWriteError>))
    requires
        names@.wf(),
    ensures
        render_view(r) == spec_offset_render(names@, zone@, long, f),
        render_wf(render_view(r)),
{
    let essentials = match &names.zone_essentials {
        crate::slots::NameSlot::Loaded(_, ess) => ess,
        crate::slots::NameSlot::Empty => {
            return failed_render(
                f,
                Part::TimeZoneName,
                DateTimeWriteError::NamesNotLoaded(ErrorField(f)),
            );
        },
    };
    let off = match zone.offset_seconds {
        Some(off) => off,
        None => {
            return failed_render(
                f,
                Part::TimeZoneName,
                DateTimeWriteError::MissingInputField("offset"),
            );
        },
    };
    if off == 0 {
        return name_render(essentials.offset_zero.clone(), Part::TimeZoneName);
    }
    match &names.fixed_decimal_formatter {
        Some(sy) => {
            let text = crate::zone::localized_offset_text(essentials, Some(sy), off, long);
            name_render(text, Part::TimeZoneName)
        },
        None => {
            let text = crate::zone::localized_offset_text(essentials, None, off, long);
            let len = text.as_str().unicode_len();
            let mut parts: Vec<FormattedPart> = Vec::new();
            parts.push(FormattedPart { start: 0, end: len, part: Part::Error });
            parts.push(FormattedPart { start: 0, end: len, part: Part::TimeZoneName });
            proof {
                assert(parts_view(parts@) =~= spec_offset_render(names@, zone@, long, f).parts);
            }
            (text, parts, Some(DateTimeWriteError::FixedDecimalFormatterNotLoaded))
        },
    }
}

/// Renders a time-zone field against a present zone input.
#[verifier::rlimit(50)]
#[verifier::spinoff_prover]
fn render_zone(
    names: &crate::names::DateTimeNames,
    zone: &crate::input::ZoneInput,
    f: Field,
) -> (r: (String, Vec<FormattedPart>, Option<DateTimeWriteError>))
    requires
        names@.wf(),
        f.symbol is TimeZone,
    ensures
        render_view(r) == spec_render_zone(names@, zone@, f),
        render_wf(render_view(r)),
{
    proof {
        reveal(spec_render_zone);
    }
    let empty_periods: Vec<crate::data::NameEntry> = Vec::new();
    let periods: &Vec<crate::data::NameEntry> = match &names.mz_periods {
        crate::slots::NameSlot::Loaded(_, t) => &t.entries,
        crate::slots::NameSlot::Empty => &empty_periods,
    };
    proof {
        assert(crate::data::entries_view(periods@) =~= spec_periods(names@));
    }
    match (f.symbol, f.length) {
        (FieldSymbol::TimeZone(TimeZone::Iso | TimeZone::IsoWithZ), _) => {
            match zone.offset_seconds {
                None => failed_render(
                    f,
                    Part::TimeZoneName,
                    DateTimeWriteError::MissingInputField("offset"),
                ),
                Some(off) => {
                    let extended = matches!(f.length, FieldLength::Three | FieldLength::Five);
                    let with_z = matches!(f.symbol, FieldSymbol::TimeZone(TimeZone::IsoWithZ));
                    let text = crate::zone::iso_offset_text(off, extended, with_z);
                    name_render(text, Part::TimeZoneName)
                },
            }
        },
        (FieldSymbol::TimeZone(TimeZone::LocalizedOffset), _) => {
            let long = matches!(f.length, FieldLength::Four);
            offset_render(names, zone, long, f)
        },
        (FieldSymbol::TimeZone(TimeZone::SpecificNonLocation), _) => {
            let long = matches!(f.length, FieldLength::Four);
            let slot = if long {
                &names.mz_specific_long
            } else {
                &names.mz_specific_short
            };
            let table = match slot {
                crate::slots::NameSlot::Loaded(_, t) => t,
                crate::slots::NameSlot::Empty => {
                    return failed_render(
                        f,
                        Part::TimeZoneName,
                        DateTimeWriteError::NamesNotLoaded(ErrorField(f)),
                    );
                },
            };
            let id = match &zone.zone_id {
                Some(id) => id,
                None => {
                    return failed_render(
                        f,
                        Part::TimeZoneName,
                        DateTimeWriteError::MissingInputField("time_zone_id"),
                    );
                },
            };
            let variant = match zone.variant {
                Some(v) => v,
                None => ZoneVariant::Standard,
            };
            match crate::zone::zone_specific_name(&table.entries, periods, id, variant) {
                Some(name) => name_render(name, Part::TimeZoneName),
                None => {
                    if long {
                        match location_text(names, id) {
                            Some(text) => name_render(text, Part::TimeZoneName),
                            None => offset_render(names, zone, true, f),
                        }
                    } else {
                        offset_render(names, zone, false, f)
                    }
                },
            }
        },
        (FieldSymbol::TimeZone(TimeZone::GenericNonLocation), _) => {
            let long = matches!(f.length, FieldLength::Four);
            let slot = if long {
                &names.mz_generic_long
            } else {
                &names.mz_generic_short
            };
            let table = match slot {
                crate::slots::NameSlot::Loaded(_, t) => t,
                crate::slots::NameSlot::Empty => {
                    return failed_render(
                        f,
                        Part::TimeZoneName,
                        DateTimeWriteError::NamesNotLoaded(ErrorField(f)),
                    );
                },
            };
            let id = match &zone.zone_id {
                Some(id) => id,
                None => {
                    return failed_render(
                        f,
                        Part::TimeZoneName,
                        DateTimeWriteError::MissingInputField("time_zone_id"),
                    );
                },
            };
            match crate::zone::zone_name(&table.entries, periods, id) {
                Some(name) => name_render(name, Part::TimeZoneName),
                None => match location_text(names, id) {
                    Some(text) => name_render(text, Part::TimeZoneName),
                    None => offset_render(names, zone, long, f),
                },
            }
        },
        (FieldSymbol::TimeZone(TimeZone::Location), FieldLength::One) => {
            match &zone.zone_id {
                Some(id) => name_render(id.clone(), Part::TimeZoneName),
                None => failed_render(
                    f,
                    Part::TimeZoneName,
                    DateTimeWriteError::MissingInputField("time_zone_id"),
                ),
            }
        },
        (FieldSymbol::TimeZone(TimeZone::Location), FieldLength::Three) => {
            let table = match &names.exemplars {
                crate::slots::NameSlot::Loaded(_, t) => t,
                crate::slots::NameSlot::Empty => {
                    return failed_render(
                        f,
                        Part::TimeZoneName,
                        DateTimeWriteError::NamesNotLoaded(ErrorField(f)),
                    );
                },
            };
            let id = match &zone.zone_id {
                Some(id) => id,
                None => {
                    return failed_render(
                        f,
                        Part::TimeZoneName,
                        DateTimeWriteError::MissingInputField("time_zone_id"),
                    );
                },
            };
            match crate::names::lookup_name(&table.entries, id) {
                Some(city) => name_render(city, Part::TimeZoneName),
                None => {
                    let root: Option<String> = match &names.exemplars_root {
                        crate::slots::NameSlot::Loaded(_, rt) => crate::names::lookup_name(
                            &rt.entries,
                            id,
                        ),
                        crate::slots::NameSlot::Empty => None,
                    };
                    match root {
                        Some(city) => name_render(city, Part::TimeZoneName),
                        None => match location_text(names, id) {
                            Some(text) => name_render(text, Part::TimeZoneName),
                            None => name_render(id.clone(), Part::TimeZoneName),
                        },
                    }
                },
            }
        },
        (FieldSymbol::TimeZone(TimeZone::Location), _) => {
            match &names.locations {
                crate::slots::NameSlot::Loaded(_, _) => {},
                crate::slots::NameSlot::Empty => {
                    return failed_render(
                        f,
                        Part::TimeZoneName,
                        DateTimeWriteError::NamesNotLoaded(ErrorField(f)),
                    );
                },
            }
            let id = match &zone.zone_id {
                Some(id) => id,
                None => {
                    return failed_render(
                        f,
                        Part::TimeZoneName,
                        DateTimeWriteError::MissingInputField("time_zone_id"),
                    );
                },
            };
            match location_text(names, id) {
                Some(text) => name_render(text, Part::TimeZoneName),
                None => offset_render(names, zone, true, f),
            }
        },
        _ => failed_render(
            f,
            Part::TimeZoneName,
            DateTimeWriteError::NamesNotLoaded(ErrorField(f)),
        ),
    }
}

/// Renders one field against the loaded names and the runtime value.
#[verifier::rlimit(100)]
#[verifier::spinoff_prover]
fn render_field(
    names: &crate::names::DateTimeNames,
    input: &crate::input::RuntimeInput,
    f: Field,
) -> (r: (String, Vec<FormattedPart>, Option<DateTimeWriteError>))
    requires
        names@.wf(),
        input.well_formed(),
    ensures
        render_view(r) == spec_render_field(names@, input@, f),
        render_wf(render_view(r)),
{
    proof {
        reveal(spec_render_field);
    }
    match f.symbol {
        FieldSymbol::Era => {
            let year = match &input.year {
                Some(y) => y,
                None => {
                    return failed_render(
                        f,
                        Part::Era,
                        DateTimeWriteError::MissingInputField("year"),
                    );
                },
            };
            let era = match &year.era {
                Some(e) => e,
                None => {
                    return failed_render(
                        f,
                        Part::Era,
                        DateTimeWriteError::MissingInputField("era"),
                    );
                },
            };
            match names.get_name_for_era(f.length, era) {
                Ok(name) => name_render(name, Part::Era),
                Err(GetNameForEraError::InvalidEraCode) => match era {
                    crate::input::FormattingEra::Code(code) => {
                        let text = code.clone();
                        let len = text.as_str().unicode_len();
                        let mut parts: Vec<FormattedPart> = Vec::new();
                        parts.push(FormattedPart { start: 0, end: len, part: Part::Error });
                        parts.push(FormattedPart { start: 0, end: len, part: Part::Era });
                        proof {
                            assert(parts_view(parts@) =~= spec_render_field(
                                names@,
                                input@,
                                f,
                            ).parts);
                        }
                        (text, parts, Some(DateTimeWriteError::InvalidEraCode))
                    },
                    crate::input::FormattingEra::Index(_) => failed_render(
                        f,
                        Part::Era,
                        DateTimeWriteError::InvalidEraCode,
                    ),
                },
                Err(_) => failed_render(
                    f,
                    Part::Era,
                    DateTimeWriteError::NamesNotLoaded(ErrorField(f)),
                ),
            }
        },
        FieldSymbol::Year(Year::Calendar) => {
            let year = match &input.year {
                Some(y) => y,
                None => {
                    return failed_render(
                        f,
                        Part::Year,
                        DateTimeWriteError::MissingInputField("year"),
                    );
                },
            };
            if matches!(f.length, FieldLength::Two) {
                let magnitude: i64 = if year.year_number < 0 {
                    -year.year_number
                } else {
                    year.year_number
                };
                numeric_render(names, magnitude % 100, 2, Part::Year)
            } else {
                numeric_render(names, year.year_number, f.length.to_usize(), Part::Year)
            }
        },
        FieldSymbol::Year(Year::RelatedIso) => {
            let related = match &input.year {
                Some(y) => match y.related_iso {
                    Some(r) => r,
                    None => {
                        return failed_render(
                            f,
                            Part::Year,
                            DateTimeWriteError::MissingInputField("year_related_iso"),
                        );
                    },
                },
                None => {
                    return failed_render(
                        f,
                        Part::Year,
                        DateTimeWriteError::MissingInputField("year_related_iso"),
                    );
                },
            };
            let text = format_signed_number(related, f.length.to_usize(), None);
            let len = text.as_str().unicode_len();
            let mut parts: Vec<FormattedPart> = Vec::new();
            parts.push(FormattedPart { start: 0, end: len, part: Part::Year });
            parts.push(FormattedPart { start: 0, end: len, part: Part::Integer });
            proof {
                assert(parts_view(parts@) =~= spec_render_field(names@, input@, f).parts);
            }
            (text, parts, None)
        },
        FieldSymbol::Year(Year::Cyclic) => {
            let year = match &input.year {
                Some(y) => y,
                None => {
                    return failed_render(
                        f,
                        Part::Year,
                        DateTimeWriteError::MissingInputField("year"),
                    );
                },
            };
            let cyclic = match year.cyclic {
                Some(c) => c,
                None => {
                    return failed_render(
                        f,
                        Part::Year,
                        DateTimeWriteError::MissingInputField("year_cyclic"),
                    );
                },
            };
            match names.get_name_for_cyclic(f.length, cyclic) {
                Ok(name) => name_render(name, Part::Year),
                Err(GetNameForCyclicYearError::InvalidYearNumber { max }) => failed_render(
                    f,
                    Part::Year,
                    DateTimeWriteError::InvalidYearNumber { max },
                ),
                Err(_) => failed_render(
                    f,
                    Part::Year,
                    DateTimeWriteError::NamesNotLoaded(ErrorField(f)),
                ),
            }
        },
        FieldSymbol::Month(month_symbol) => {
            let month = match &input.month {
                Some(m) => m,
                None => {
                    return failed_render(
                        f,
                        Part::Month,
                        DateTimeWriteError::MissingInputField("month"),
                    );
                },
            };
            if matches!(f.length, FieldLength::One | FieldLength::Two) {
                return numeric_render(
                    names,
                    month.ordinal as i64,
                    f.length.to_usize(),
                    Part::Month,
                );
            }
            match names.get_name_for_month(month_symbol, f.length, month.code.as_str()) {
                Ok(crate::names::MonthPlaceholderValue::PlainString(name)) => name_render(
                    name,
                    Part::Month,
                ),
                Ok(crate::names::MonthPlaceholderValue::Numeric) => numeric_render(
                    names,
                    month.ordinal as i64,
                    1,
                    Part::Month,
                ),
                Ok(crate::names::MonthPlaceholderValue::NumericPattern(marker)) => {
                    let mut text = marker;
                    match &names.fixed_decimal_formatter {
                        Some(sy) => {
                            let number = format_number(month.ordinal as u64, 1, Some(sy));
                            text.append(number.as_str());
                            let len = text.as_str().unicode_len();
                            let mut parts: Vec<FormattedPart> = Vec::new();
                            parts.push(FormattedPart { start: 0, end: len, part: Part::Month });
                            proof {
                                assert(parts_view(parts@) =~= spec_render_field(
                                    names@,
                                    input@,
                                    f,
                                ).parts);
                            }
                            (text, parts, None)
                        },
                        None => {
                            let number = format_number(month.ordinal as u64, 1, None);
                            text.append(number.as_str());
                            let len = text.as_str().unicode_len();
                            let mut parts: Vec<FormattedPart> = Vec::new();
                            parts.push(FormattedPart { start: 0, end: len, part: Part::Error });
                            parts.push(FormattedPart { start: 0, end: len, part: Part::Month });
                            proof {
                                assert(parts_view(parts@) =~= spec_render_field(
                                    names@,
                                    input@,
                                    f,
                                ).parts);
                            }
                            (
                                text,
                                parts,
                                Some(DateTimeWriteError::FixedDecimalFormatterNotLoaded),
                            )
                        },
                    }
                },
                Err(GetNameForMonthError::InvalidMonthCode) => failed_render(
                    f,
                    Part::Month,
                    DateTimeWriteError::InvalidMonthCode,
                ),
                Err(_) => failed_render(
                    f,
                    Part::Month,
                    DateTimeWriteError::NamesNotLoaded(ErrorField(f)),
                ),
            }
        },
        FieldSymbol::Weekday(weekday_symbol) => {
            let day = match input.iso_weekday {
                Some(d) => d,
                None => {
                    return failed_render(
                        f,
                        Part::Weekday,
                        DateTimeWriteError::MissingInputField("iso_weekday"),
                    );
                },
            };
            match names.get_name_for_weekday(weekday_symbol, f.length, day) {
                Ok(name) => name_render(name, Part::Weekday),
                Err(_) => failed_render(
                    f,
                    Part::Weekday,
                    DateTimeWriteError::NamesNotLoaded(ErrorField(f)),
                ),
            }
        },
        FieldSymbol::DayPeriod(period_symbol) => {
            let hour = match input.hour {
                Some(h) => h,
                None => {
                    return failed_render(
                        f,
                        Part::DayPeriod,
                        DateTimeWriteError::MissingInputField("hour"),
                    );
                },
            };
            let minute_zero = match input.minute {
                Some(m) => m == 0,
                None => true,
            };
            let second_zero = match input.second {
                Some(s) => s == 0,
                None => true,
            };
            let nano_zero = match input.nanosecond {
                Some(n) => n == 0,
                None => true,
            };
            let is_top_of_hour = minute_zero && second_zero && nano_zero;
            proof {
                assert(is_top_of_hour == spec_top_of_hour(input@));
            }
            match names.get_name_for_day_period(period_symbol, f.length, hour, is_top_of_hour) {
                Ok(name) => name_render(name, Part::DayPeriod),
                Err(_) => failed_render(
                    f,
                    Part::DayPeriod,
                    DateTimeWriteError::NamesNotLoaded(ErrorField(f)),
                ),
            }
        },
        FieldSymbol::Day(Day::DayOfMonth) => match input.day_of_month {
            Some(day) => numeric_render(names, day as i64, f.length.to_usize(), Part::Day),
            None => failed_render(
                f,
                Part::Day,
                DateTimeWriteError::MissingInputField("day_of_month"),
            ),
        },
        FieldSymbol::Day(Day::DayOfYear) => match input.day_of_year {
            Some(day) => numeric_render(names, day as i64, f.length.to_usize(), Part::Day),
            None => failed_render(
                f,
                Part::Day,
                DateTimeWriteError::MissingInputField("day_of_year"),
            ),
        },
        FieldSymbol::Day(Day::DayOfWeekInMonth) => match input.day_of_week_in_month {
            Some(day) => numeric_render(names, day as i64, f.length.to_usize(), Part::Day),
            None => failed_render(
                f,
                Part::Day,
                DateTimeWriteError::MissingInputField("day_of_week_in_month"),
            ),
        },
        FieldSymbol::Hour(hour_symbol) => {
            let hour = match input.hour {
                Some(h) => h,
                None => {
                    return failed_render(
                        f,
                        Part::Hour,
                        DateTimeWriteError::MissingInputField("hour"),
                    );
                },
            };
            let value: u8 = match hour_symbol {
                Hour::H23 => hour,
                Hour::H11 => hour % 12,
                Hour::H12 => {
                    if hour % 12 == 0 {
                        12
                    } else {
                        hour % 12
                    }
                },
                Hour::H24 => {
                    if hour == 0 {
                        24
                    } else {
                        hour
                    }
                },
            };
            numeric_render(names, value as i64, f.length.to_usize(), Part::Hour)
        },
        FieldSymbol::Minute => match input.minute {
            Some(minute) => numeric_render(names, minute as i64, f.length.to_usize(), Part::Minute),
            None => failed_render(
                f,
                Part::Minute,
                DateTimeWriteError::MissingInputField("minute"),
            ),
        },
        FieldSymbol::Second(Second::Second) => match input.second {
            Some(second) => numeric_render(names, second as i64, f.length.to_usize(), Part::Second),
            None => failed_render(
                f,
                Part::Second,
                DateTimeWriteError::MissingInputField("second"),
            ),
        },
        FieldSymbol::Second(Second::MillisInDay) => {
            let hour = match input.hour {
                Some(h) => h,
                None => {
                    return failed_render(
                        f,
                        Part::Second,
                        DateTimeWriteError::MissingInputField("hour"),
                    );
                },
            };
            let minute = match input.minute {
                Some(m) => m,
                None => {
                    return failed_render(
                        f,
                        Part::Second,
                        DateTimeWriteError::MissingInputField("minute"),
                    );
                },
            };
            let second = match input.second {
                Some(s) => s,
                None => {
                    return failed_render(
                        f,
                        Part::Second,
                        DateTimeWriteError::MissingInputField("second"),
                    );
                },
            };
            let nanos: u64 = match input.nanosecond {
                Some(n) => n as u64,
                None => 0,
            };
            let value: u64 = hour as u64 * 3600000 + minute as u64 * 60000 + second as u64 * 1000
                + nanos / 1000000;
            numeric_render(names, value as i64, f.length.to_usize(), Part::Second)
        },
        FieldSymbol::DecimalSecond(digits) => {
            let second = match input.second {
                Some(s) => s,
                None => {
                    return failed_render(
                        f,
                        Part::Second,
                        DateTimeWriteError::MissingInputField("second"),
                    );
                },
            };
            let nanos: u64 = match input.nanosecond {
                Some(n) => n as u64,
                None => 0,
            };
            let divisor: u64 = match digits {
                DecimalSecond::Subsecond1 => 100000000,
                DecimalSecond::Subsecond2 => 10000000,
                DecimalSecond::Subsecond3 => 1000000,
                DecimalSecond::Subsecond4 => 100000,
                DecimalSecond::Subsecond5 => 10000,
                DecimalSecond::Subsecond6 => 1000,
                DecimalSecond::Subsecond7 => 100,
                DecimalSecond::Subsecond8 => 10,
                DecimalSecond::Subsecond9 => 1,
            };
            let fraction: u64 = nanos / divisor;
            let n = digits.digits();
            match &names.fixed_decimal_formatter {
                Some(sy) => {
                    let int_text = format_number(second as u64, f.length.to_usize(), Some(sy));
                    let frac_text = format_number(fraction, n, Some(sy));
                    let int_len = int_text.as_str().unicode_len();
                    let mut text = int_text;
                    text.append(sy.decimal_separator.as_str());
                    let sep_end = text.as_str().unicode_len();
                    text.append(frac_text.as_str());
                    let len = text.as_str().unicode_len();
                    let mut parts: Vec<FormattedPart> = Vec::new();
                    parts.push(FormattedPart { start: 0, end: len, part: Part::Second });
                    parts.push(FormattedPart { start: 0, end: int_len, part: Part::Integer });
                    parts.push(FormattedPart { start: int_len, end: sep_end, part: Part::Decimal });
                    parts.push(FormattedPart { start: sep_end, end: len, part: Part::Fraction });
                    proof {
                        assert(parts_view(parts@) =~= spec_render_field(names@, input@, f).parts);
                    }
                    (text, parts, None)
                },
                None => {
                    proof {
                        reveal_strlit(".");
                    }
                    let int_text = format_number(second as u64, f.length.to_usize(), None);
                    let frac_text = format_number(fraction, n, None);
                    let mut text = int_text;
                    text.append(".");
                    text.append(frac_text.as_str());
                    let len = text.as_str().unicode_len();
                    let mut parts: Vec<FormattedPart> = Vec::new();
                    parts.push(FormattedPart { start: 0, end: len, part: Part::Error });
                    parts.push(FormattedPart { start: 0, end: len, part: Part::Second });
                    proof {
                        assert(parts_view(parts@) =~= spec_render_field(names@, input@, f).parts);
                    }
                    (text, parts, Some(DateTimeWriteError::FixedDecimalFormatterNotLoaded))
                },
            }
        },
        FieldSymbol::TimeZone(_) => match &input.zone {
            Some(zone) => render_zone(names, zone, f),
            None => failed_render(
                f,
                Part::TimeZoneName,
                DateTimeWriteError::MissingInputField("time_zone"),
            ),
        },
    }
}

/// The render of one item: literal text verbatim and without annotation,
/// a field through the field render.
pub open spec fn spec_render_item(
    m: NamesModel,
    input: RuntimeInputModel,
    item: crate::fields::PatternItemModel,
) -> RenderModel {
    match item {
        crate::fields::PatternItemModel::Literal(text) => RenderModel {
            text,
            parts: Seq::empty(),
            error: None,
        },
        crate::fields::PatternItemModel::Field(f) => spec_render_field(m, input, f),
    }
}

/// Annotations moved right by an offset.
pub open spec fn shift_parts(parts: Seq<PartModel>, offset: int) -> Seq<PartModel> {
    parts.map(
        |i: int, p: PartModel|
            PartModel { start: p.start + offset, end: p.end + offset, part: p.part },
    )
}

/// The full interpretation of an item sequence: the texts in order, each
/// item's annotations moved to its place in the output, and the first
/// error met in item order.
pub open spec fn spec_format(
    m: NamesModel,
    input: RuntimeInputModel,
    items: Seq<crate::fields::PatternItemModel>,
) -> RenderModel
    decreases items.len(),
{
    if items.len() == 0 {
        RenderModel { text: Seq::empty(), parts: Seq::empty(), error: None }
    } else {
        let head = spec_render_item(m, input, items[0]);
        let rest = spec_format(m, input, items.drop_first());
        RenderModel {
            text: head.text + rest.text,
            parts: head.parts + shift_parts(rest.parts, head.text.len() as int),
            error: if head.error is Some {
                head.error
            } else {
                rest.error
            },
        }
    }
}

/// Appends an item's annotations, moved right by the length of the
/// output already produced.
fn push_shifted_parts(parts: &mut Vec<FormattedPart>, piece: &Vec<FormattedPart>, base: usize)
    requires
        forall|i: int|
            0 <= i < piece@.len() ==> #[trigger] piece@[i].start <= piece@[i].end && piece@[i].end
                + base <= usize::MAX,
    ensures
        parts_view(final(parts)@) =~= parts_view(old(parts)@) + shift_parts(
            parts_view(piece@),
            base as int,
        ),
{
    let mut j: usize = 0;
    while j < piece.len()
        invariant
            j <= piece.len(),
            forall|i: int|
                0 <= i < piece@.len() ==> #[trigger] piece@[i].start <= piece@[i].end && piece@[
                    i
                ].end + base <= usize::MAX,
            parts@.len() == old(parts)@.len() + j,
            forall|i: int|
                0 <= i < old(parts)@.len() ==> #[trigger] parts@[i] == old(parts)@[i],
            forall|i: int|
                0 <= i < j ==> #[trigger] parts@[old(parts)@.len() + i]@ == (PartModel {
                    start: piece@[i]@.start + base,
                    end: piece@[i]@.end + base,
                    part: piece@[i].part,
                }),
        decreases piece.len() - j,
    {
        let p = piece[j];
        parts.push(FormattedPart { start: p.start + base, end: p.end + base, part: p.part });
        j += 1;
    }
    proof {
        assert forall|i: int|
            0 <= i < parts_view(parts@).len() implies parts_view(parts@)[i] == (parts_view(
            old(parts)@,
        ) + shift_parts(parts_view(piece@), base as int))[i] by {
            if i < old(parts)@.len() {
            } else {
                let k = i - old(parts)@.len();
                assert(parts@[old(parts)@.len() + k]@ == (PartModel {
                    start: piece@[k]@.start + base,
                    end: piece@[k]@.end + base,
                    part: piece@[k].part,
                }));
                assert(shift_parts(parts_view(piece@), base as int)[k] == (PartModel {
                    start: piece@[k]@.start + base,
                    end: piece@[k]@.end + base,
                    part: piece@[k].part,
                }));
            }
        }
    }
}

/// A pattern interpolated against one runtime value: the finished text,
/// its annotations, and the first error met, if any.
///
/// Annotation positions count characters of the text.
#[derive(Debug)]
pub struct FormattedDateTimePattern {
    pub text: String,
    pub parts: Vec<FormattedPart>,
    pub first_error: Option<DateTimeWriteError>,
}

/// Interprets a whole item sequence: literals verbatim, fields resolved
/// or degraded, never aborting, with the first error surfaced.
#[verifier::rlimit(100)]
#[verifier::spinoff_prover]
pub fn format_pattern(
    names: &crate::names::DateTimeNames,
    pattern: &crate::fields::DateTimePattern,
    input: &crate::input::RuntimeInput,
) -> (r: FormattedDateTimePattern)
    requires
        names@.wf(),
        input.well_formed(),
    ensures
        r.text@ == spec_format(names@, input@, pattern@).text,
        parts_view(r.parts@) == spec_format(names@, input@, pattern@).parts,
        error_view(r.first_error) == spec_format(names@, input@, pattern@).error,
{
    let ghost items = pattern@;
    let mut out = String::new();
    let mut parts: Vec<FormattedPart> = Vec::new();
    let mut first_error: Option<DateTimeWriteError> = None;
    let mut idx: usize = 0;
    proof {
        assert(items.skip(0) =~= items);
        assert(parts_view(parts@) =~= Seq::<PartModel>::empty());
        assert(spec_format(names@, input@, items).parts =~= parts_view(parts@) + shift_parts(
            spec_format(names@, input@, items.skip(0)).parts,
            0,
        ));
    }
    while idx < pattern.items.len()
        invariant
            idx <= pattern.items.len(),
            items == pattern@,
            names@.wf(),
            input.well_formed(),
            spec_format(names@, input@, items).text == out@ + spec_format(
                names@,
                input@,
                items.skip(idx as int),
            ).text,
            spec_format(names@, input@, items).parts == parts_view(parts@) + shift_parts(
                spec_format(names@, input@, items.skip(idx as int)).parts,
                out@.len() as int,
            ),
            spec_format(names@, input@, items).error == (match error_view(first_error) {
                Some(e) => Some(e),
                None => spec_format(names@, input@, items.skip(idx as int)).error,
            }),
        decreases pattern.items.len() - idx,
    {
        let ghost remaining = items.skip(idx as int);
        proof {
            assert(pattern@[idx as int] == pattern.items@[idx as int]@);
            assert(remaining[0] == items[idx as int]);
            assert(remaining.drop_first() =~= items.skip(idx as int + 1));
        }
        let item = &pattern.items[idx];
        let piece: (String, Vec<FormattedPart>, Option<DateTimeWriteError>) = match item {
            crate::fields::PatternItem::Literal(t) => {
                let r = (t.clone(), Vec::<FormattedPart>::new(), None);
                proof {
                    assert(parts_view(r.1@) =~= Seq::<PartModel>::empty());
                    assert(render_view(r) == spec_render_item(names@, input@, items[idx as int]));
                    assert(render_wf(render_view(r)));
                }
                r
            },
            crate::fields::PatternItem::Field(f) => {
                let r = render_field(names, input, *f);
                proof {
                    assert(render_view(r) == spec_render_item(names@, input@, items[idx as int]));
                }
                r
            },
        };
        let base = out.as_str().unicode_len();
        out.append(piece.0.as_str());
        let total = out.as_str().unicode_len();
        proof {
            assert(total as int == base as int + piece.0@.len());
            assert(render_wf(render_view(piece)));
            assert forall|i: int|
                0 <= i < piece.1@.len() implies #[trigger] piece.1@[i].start <= piece.1@[i].end
                && piece.1@[i].end + base <= usize::MAX by {
                assert(render_view(piece).parts[i] == piece.1@[i]@);
                assert(0 <= render_view(piece).parts[i].start <= render_view(piece).parts[i].end
                    <= render_view(piece).text.len());
            }
        }
        push_shifted_parts(&mut parts, &piece.1, base);
        if first_error.is_none() {
            first_error = piece.2;
        }
        proof {
            let head = spec_render_item(names@, input@, items[idx as int]);
            let rest = spec_format(names@, input@, items.skip(idx as int + 1));
            assert(spec_format(names@, input@, remaining).text == head.text + rest.text);
            assert(spec_format(names@, input@, remaining).parts == head.parts + shift_parts(
                rest.parts,
                head.text.len() as int,
            ));
            assert(spec_format(names@, input@, remaining).error == (if head.error is Some {
                head.error
            } else {
                rest.error
            }));
            assert(out@ =~= spec_format(names@, input@, items).text.take(total as int));
            assert(spec_format(names@, input@, items).text == out@ + rest.text);
            lemma_shift_parts_concat(
                head.parts,
                shift_parts(rest.parts, head.text.len() as int),
                base as int,
            );
            lemma_shift_parts_compose(rest.parts, head.text.len() as int, base as int);
            assert(spec_format(names@, input@, items).parts =~= parts_view(parts@) + shift_parts(
                rest.parts,
                total as int,
            ));
        }
        idx += 1;
    }
    proof {
        assert(items.skip(idx as int).len() == 0);
        assert(spec_format(names@, input@, items).text =~= out@);
        assert(spec_format(names@, input@, items).parts =~= parts_view(parts@));
    }
    FormattedDateTimePattern { text: out, parts, first_error }
}

/// Shifting distributes over concatenation of annotation lists.
proof fn lemma_shift_parts_concat(a: Seq<PartModel>, b: Seq<PartModel>, d: int)
    ensures
        shift_parts(a + b, d) =~= shift_parts(a, d) + shift_parts(b, d),
{
    assert forall|i: int|
        0 <= i < shift_parts(a + b, d).len() implies shift_parts(a + b, d)[i] == (shift_parts(a, d)
        + shift_parts(b, d))[i] by {
        if i < a.len() {
            assert((a + b)[i] == a[i]);
        } else {
            assert((a + b)[i] == b[i - a.len()]);
        }
    }
}

/// Two shifts compose into one shift by the sum.
proof fn lemma_shift_parts_compose(a: Seq<PartModel>, d1: int, d2: int)
    ensures
        shift_parts(shift_parts(a, d1), d2) =~= shift_parts(a, d1 + d2),
{
}

/// The error of the first field item of a sequence, in pattern order.
pub open spec fn spec_first_field_error(
    m: NamesModel,
    input: RuntimeInputModel,
    items: Seq<crate::fields::PatternItemModel>,
) -> Option<WriteErrorModel>
    decreases items.len(),
{
    if items.len() == 0 {
        None
    } else {
        match items[0] {
            crate::fields::PatternItemModel::Literal(_) => spec_first_field_error(
                m,
                input,
                items.drop_first(),
            ),
            crate::fields::PatternItemModel::Field(f) => spec_render_field(m, input, f).error,
        }
    }
}

/// Where every field item of a pattern fails to render, the overall
/// result of interpretation is exactly the error of the first field item
/// in pattern order: literals never contribute errors, and later failures
/// never displace the first.
pub proof fn lemma_first_error_in_pattern_order(
    m: NamesModel,
    input: RuntimeInputModel,
    items: Seq<crate::fields::PatternItemModel>,
)
    requires
        forall|i: int|
            0 <= i < items.len() ==> (#[trigger] items[i] matches
                crate::fields::PatternItemModel::Field(f) ==> spec_render_field(
                m,
                input,
                f,
            ).error is Some),
    ensures
        spec_format(m, input, items).error == spec_first_field_error(m, input, items),
    decreases items.len(),
{
    if items.len() > 0 {
        assert forall|i: int|
            0 <= i < items.drop_first().len() implies (#[trigger] items.drop_first()[i] matches
            crate::fields::PatternItemModel::Field(f) ==> spec_render_field(
            m,
            input,
            f,
        ).error is Some) by {
            assert(items.drop_first()[i] == items[i + 1]);
        }
        lemma_first_error_in_pattern_order(m, input, items.drop_first());
        assert(items[0] == items.index(0));
    }
}

/// With no category loaded at all, every field that depends on loaded
/// data fails to render: its span carries the error part first, and a
/// structured error is recorded.  The only fields that render without
/// any data are the related ISO year, the ISO offsets, and the bare zone
/// identifier, which this law leaves out.
#[verifier::rlimit(100)]
pub proof fn lemma_empty_names_field_fails(input: RuntimeInputModel, f: Field)
    requires
        f.symbol != FieldSymbol::Year(Year::RelatedIso),
        f.symbol != FieldSymbol::TimeZone(TimeZone::Iso),
        f.symbol != FieldSymbol::TimeZone(TimeZone::IsoWithZ),
        !(f.symbol == FieldSymbol::TimeZone(TimeZone::Location) && f.length == FieldLength::One),
    ensures
        spec_render_field(NamesModel::all_empty(), input, f).error is Some,
        spec_render_field(NamesModel::all_empty(), input, f).parts.len() >= 1,
        spec_render_field(NamesModel::all_empty(), input, f).parts[0].part == Part::Error,
{
    reveal(spec_render_field);
    reveal(spec_render_zone);
}

/// Annotations ordered by start position: a later annotation never
/// starts before an earlier one.
pub open spec fn parts_ordered(parts: Seq<PartModel>) -> bool {
    forall|i: int, j: int|
        0 <= i < j < parts.len() ==> #[trigger] parts[i].start <= #[trigger] parts[j].start
}

/// Every zone render is well formed: its annotations lie within its
/// text and are ordered by start position.
#[verifier::rlimit(100)]
#[verifier::spinoff_prover]
proof fn lemma_render_zone_wf(m: NamesModel, z: ZoneInputModel, f: Field)
    ensures
        render_wf(spec_render_zone(m, z, f)),
        parts_ordered(spec_render_zone(m, z, f).parts),
{
    reveal(spec_render_zone);
}

/// The date-category half of the field-render well-formedness proof.
#[verifier::rlimit(100)]
#[verifier::spinoff_prover]
proof fn lemma_render_field_wf_date(m: NamesModel, input: RuntimeInputModel, f: Field)
    requires
        f.symbol is Era || f.symbol is Year || f.symbol is Month || f.symbol is Day,
    ensures
        render_wf(spec_render_field(m, input, f)),
        parts_ordered(spec_render_field(m, input, f).parts),
{
    reveal(spec_render_field);
}

/// The time-category half of the field-render well-formedness proof.
#[verifier::rlimit(100)]
#[verifier::spinoff_prover]
proof fn lemma_render_field_wf_time(m: NamesModel, input: RuntimeInputModel, f: Field)
    requires
        f.symbol is Weekday || f.symbol is DayPeriod || f.symbol is Hour || f.symbol is Minute
            || f.symbol is Second || f.symbol is DecimalSecond,
    ensures
        render_wf(spec_render_field(m, input, f)),
        parts_ordered(spec_render_field(m, input, f).parts),
{
    reveal(spec_render_field);
}

/// Every single-item render is well formed: its annotations lie within
/// its text and are ordered by start position.
#[verifier::rlimit(100)]
#[verifier::spinoff_prover]
pub proof fn lemma_render_item_wf(
    m: NamesModel,
    input: RuntimeInputModel,
    item: crate::fields::PatternItemModel,
)
    ensures
        render_wf(spec_render_item(m, input, item)),
        parts_ordered(spec_render_item(m, input, item).parts),
{
    match item {
        crate::fields::PatternItemModel::Field(f) => {
            if f.symbol is TimeZone {
                reveal(spec_render_field);
                match input.zone {
                    Some(z) => lemma_render_zone_wf(m, z, f),
                    None => {},
                }
            } else if f.symbol is Weekday || f.symbol is DayPeriod || f.symbol is Hour
                || f.symbol is Minute || f.symbol is Second || f.symbol is DecimalSecond {
                lemma_render_field_wf_time(m, input, f);
            } else {
                lemma_render_field_wf_date(m, input, f);
            }
        },
        crate::fields::PatternItemModel::Literal(_) => {},
    }
}

/// The output invariant of interpretation: every annotation of the
/// formatted output lies within the text, and the annotations appear in
/// the order of the pattern items that produced them.
pub proof fn lemma_format_output_invariant(
    m: NamesModel,
    input: RuntimeInputModel,
    items: Seq<crate::fields::PatternItemModel>,
)
    ensures
        render_wf(spec_format(m, input, items)),
        parts_ordered(spec_format(m, input, items).parts),
    decreases items.len(),
{
    if items.len() > 0 {
        lemma_render_item_wf(m, input, items[0]);
        lemma_format_output_invariant(m, input, items.drop_first());
        let head = spec_render_item(m, input, items[0]);
        let rest = spec_format(m, input, items.drop_first());
        let shifted = shift_parts(rest.parts, head.text.len() as int);
        let whole = spec_format(m, input, items);
        assert(whole.parts == head.parts + shifted);
        assert(whole.text.len() == head.text.len() + rest.text.len());
        assert forall|i: int|
            0 <= i < whole.parts.len() implies 0 <= #[trigger] whole.parts[i].start
            <= whole.parts[i].end <= whole.text.len() by {
            if i < head.parts.len() {
                assert(whole.parts[i] == head.parts[i]);
            } else {
                let k = i - head.parts.len();
                assert(whole.parts[i] == shifted[k]);
                assert(0 <= rest.parts[k].start <= rest.parts[k].end <= rest.text.len());
            }
        }
        assert forall|i: int, j: int|
            0 <= i < j < whole.parts.len() implies #[trigger] whole.parts[i].start
            <= #[trigger] whole.parts[j].start by {
            if j < head.parts.len() {
            } else if i < head.parts.len() {
                assert(whole.parts[i].start <= head.text.len());
                let k = j - head.parts.len();
                assert(whole.parts[j] == shifted[k]);
                assert(rest.parts[k].start >= 0);
            } else {
                let ki = i - head.parts.len();
                let kj = j - head.parts.len();
                assert(whole.parts[i] == shifted[ki]);
                assert(whole.parts[j] == shifted[kj]);
                assert(rest.parts[ki].start <= rest.parts[kj].start);
            }
        }
    }
}

} // verus!
