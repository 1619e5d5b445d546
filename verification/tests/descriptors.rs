//! The name-length descriptors and their conversions.

use datetime_names::fields::{
    DayPeriod, Field, FieldLength, FieldSymbol, Month, Weekday,
};
use datetime_names::length::{
    AttrContext, AttrLength, DayPeriodNameLength, MonthNameLength, NameAttribute,
    WeekdayNameLength, YearNameLength,
};

fn roundtrip_year(length: YearNameLength) {
    let field = length.to_approximate_error_field();
    assert_eq!(YearNameLength::from_field_length(field.0.length), Some(length));
}

#[test]
fn year_name_length_round_trip() {
    roundtrip_year(YearNameLength::Abbreviated);
    roundtrip_year(YearNameLength::Wide);
    roundtrip_year(YearNameLength::Narrow);
}

#[test]
fn year_name_length_normalization() {
    // Lengths 1 to 3 all select the abbreviated names.
    assert_eq!(
        YearNameLength::from_field_length(FieldLength::One),
        Some(YearNameLength::Abbreviated)
    );
    assert_eq!(
        YearNameLength::from_field_length(FieldLength::Two),
        Some(YearNameLength::Abbreviated)
    );
    assert_eq!(
        YearNameLength::from_field_length(FieldLength::Three),
        Some(YearNameLength::Abbreviated)
    );
    assert_eq!(YearNameLength::from_field_length(FieldLength::Four), Some(YearNameLength::Wide));
    assert_eq!(YearNameLength::from_field_length(FieldLength::Five), Some(YearNameLength::Narrow));
    assert_eq!(YearNameLength::from_field_length(FieldLength::Six), None);
}

fn roundtrip_month(length: MonthNameLength) {
    let field = length.to_approximate_error_field();
    match field.0.symbol {
        FieldSymbol::Month(m) => {
            assert_eq!(MonthNameLength::from_field(m, field.0.length), Some(length));
        }
        _ => panic!("month descriptor reported a non-month field"),
    }
}

#[test]
fn month_name_length_round_trip() {
    roundtrip_month(MonthNameLength::Abbreviated);
    roundtrip_month(MonthNameLength::Wide);
    roundtrip_month(MonthNameLength::Narrow);
    roundtrip_month(MonthNameLength::StandaloneAbbreviated);
    roundtrip_month(MonthNameLength::StandaloneWide);
    roundtrip_month(MonthNameLength::StandaloneNarrow);
}

#[test]
fn month_numeric_lengths_are_not_names() {
    assert_eq!(MonthNameLength::from_field(Month::Format, FieldLength::One), None);
    assert_eq!(MonthNameLength::from_field(Month::Format, FieldLength::Two), None);
    assert_eq!(MonthNameLength::from_field(Month::StandAlone, FieldLength::Six), None);
}

fn roundtrip_weekday(length: WeekdayNameLength) {
    let field = length.to_approximate_error_field();
    match field.0.symbol {
        FieldSymbol::Weekday(w) => {
            assert_eq!(WeekdayNameLength::from_field(w, field.0.length), Some(length));
        }
        _ => panic!("weekday descriptor reported a non-weekday field"),
    }
}

#[test]
fn weekday_name_length_round_trip() {
    roundtrip_weekday(WeekdayNameLength::Abbreviated);
    roundtrip_weekday(WeekdayNameLength::Wide);
    roundtrip_weekday(WeekdayNameLength::Narrow);
    roundtrip_weekday(WeekdayNameLength::Short);
    roundtrip_weekday(WeekdayNameLength::StandaloneAbbreviated);
    roundtrip_weekday(WeekdayNameLength::StandaloneWide);
    roundtrip_weekday(WeekdayNameLength::StandaloneNarrow);
    roundtrip_weekday(WeekdayNameLength::StandaloneShort);
}

#[test]
fn weekday_format_normalizes_but_standalone_does_not() {
    // The non-numeric names of `e` are those of `E`, and `E..EEE` are all
    // abbreviated.
    assert_eq!(
        WeekdayNameLength::from_field(Weekday::Format, FieldLength::One),
        Some(WeekdayNameLength::Abbreviated)
    );
    assert_eq!(
        WeekdayNameLength::from_field(Weekday::Local, FieldLength::Four),
        Some(WeekdayNameLength::Wide)
    );
    // Stand-alone lengths 1 and 2 are locale-dependent numbers, not names.
    assert_eq!(WeekdayNameLength::from_field(Weekday::StandAlone, FieldLength::One), None);
    assert_eq!(WeekdayNameLength::from_field(Weekday::StandAlone, FieldLength::Two), None);
}

fn roundtrip_day_period(length: DayPeriodNameLength) {
    let field = length.to_approximate_error_field();
    match field.0.symbol {
        FieldSymbol::DayPeriod(p) => {
            assert_eq!(DayPeriodNameLength::from_field(p, field.0.length), Some(length));
        }
        _ => panic!("day-period descriptor reported a non-day-period field"),
    }
}

#[test]
fn day_period_name_length_round_trip() {
    roundtrip_day_period(DayPeriodNameLength::Abbreviated);
    roundtrip_day_period(DayPeriodNameLength::Wide);
    roundtrip_day_period(DayPeriodNameLength::Narrow);
}

#[test]
fn day_period_symbols_share_names() {
    assert_eq!(
        DayPeriodNameLength::from_field(DayPeriod::AmPm, FieldLength::Three),
        DayPeriodNameLength::from_field(DayPeriod::NoonMidnight, FieldLength::Three)
    );
}

#[test]
fn attributes_are_symbol_independent() {
    // The backend token depends only on the width and context, never on
    // the symbol letter that asked for it.
    assert_eq!(
        MonthNameLength::Wide.to_attributes(),
        NameAttribute { context: AttrContext::Format, length: AttrLength::Wide }
    );
    assert_eq!(
        MonthNameLength::StandaloneWide.to_attributes(),
        NameAttribute { context: AttrContext::Standalone, length: AttrLength::Wide }
    );
    assert_eq!(
        WeekdayNameLength::Short.to_attributes(),
        NameAttribute { context: AttrContext::Format, length: AttrLength::Short }
    );
    assert_eq!(
        YearNameLength::Abbreviated.to_attributes(),
        DayPeriodNameLength::Abbreviated.to_attributes()
    );
}

#[test]
fn canonical_letters() {
    assert_eq!(FieldSymbol::Era.canonical_letter(), "G");
    assert_eq!(FieldSymbol::Weekday(Weekday::Format).canonical_letter(), "E");
    assert_eq!(FieldSymbol::Month(Month::StandAlone).canonical_letter(), "L");
    let field = Field { symbol: FieldSymbol::Minute, length: FieldLength::Two };
    assert_eq!(field.symbol.canonical_letter(), "m");
}
