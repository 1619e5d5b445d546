//! Full pattern interpolation against concrete locale tables.

use datetime_names::backend::{EmptyDataProvider, MemoryDataProvider};
use datetime_names::data::{
    DataCategory, DataKey, DataPayload, DayPeriodNames, DecimalSymbols, MonthNames, WeekdayNames,
    YearNames,
};
use datetime_names::errors::DateTimeWriteError;
use datetime_names::fields::{
    DateTimePattern, Day, DayPeriod, DecimalSecond, ErrorField, Field, FieldLength, FieldSymbol,
    Hour, Month, PatternItem, Second, TimeZone, Weekday, Year,
};
use datetime_names::format::Part;
use datetime_names::input::{
    FormattingEra, IsoWeekday, MonthInfo, RuntimeInput, YearInfo, ZoneInput, ZoneVariant,
};
use datetime_names::length::{
    DayPeriodNameLength, MonthNameLength, WeekdayNameLength, YearNameLength,
};
use datetime_names::typed::TypedDateTimeNames;

fn s(text: &str) -> String {
    String::from(text)
}

fn strings(names: &[&str]) -> Vec<String> {
    names.iter().map(|n| s(n)).collect()
}

fn lit(text: &str) -> PatternItem {
    PatternItem::Literal(s(text))
}

fn field(symbol: FieldSymbol, length: FieldLength) -> PatternItem {
    PatternItem::Field(Field { symbol, length })
}

fn ascii_decimal_symbols() -> DataPayload {
    DataPayload::Decimal(DecimalSymbols {
        digits: (0..10).map(|d| d.to_string()).collect(),
        minus_sign: s("-"),
        decimal_separator: s("."),
    })
}

fn key(category: DataCategory, attribute: Option<datetime_names::length::NameAttribute>, locale: &str) -> DataKey {
    DataKey { category, attribute, locale: s(locale) }
}

fn english_backend() -> MemoryDataProvider {
    let mut provider = MemoryDataProvider::new();
    provider.insert(
        key(DataCategory::MonthNames, Some(MonthNameLength::Wide.to_attributes()), "en"),
        DataPayload::Month(MonthNames::Linear(strings(&[
            "January", "February", "March", "April", "May", "June", "July", "August",
            "September", "October", "November", "December",
        ]))),
    );
    provider.insert(
        key(DataCategory::WeekdayNames, Some(WeekdayNameLength::Abbreviated.to_attributes()), "en"),
        DataPayload::Weekday(WeekdayNames {
            names: strings(&["Sun", "Mon", "Tue", "Wed", "Thu", "Fri", "Sat"]),
        }),
    );
    provider.insert(
        key(DataCategory::YearNames, Some(YearNameLength::Narrow.to_attributes()), "en"),
        DataPayload::Year(YearNames::FixedEras(strings(&["B", "A"]))),
    );
    provider.insert(
        key(DataCategory::DayPeriodNames, Some(DayPeriodNameLength::Abbreviated.to_attributes()), "en"),
        DataPayload::DayPeriod(DayPeriodNames {
            am: Some(s("AM")),
            pm: Some(s("PM")),
            noon: None,
            midnight: None,
        }),
    );
    provider.insert(key(DataCategory::DecimalSymbols, None, "en"), ascii_decimal_symbols());
    provider
}

/// The pattern `'It is' E, MMMM d, y GGGGG 'at' hh:mm a'!'` as items.
fn english_pattern() -> DateTimePattern {
    DateTimePattern::from_items(vec![
        lit("It is "),
        field(FieldSymbol::Weekday(Weekday::Format), FieldLength::One),
        lit(", "),
        field(FieldSymbol::Month(Month::Format), FieldLength::Four),
        lit(" "),
        field(FieldSymbol::Day(Day::DayOfMonth), FieldLength::One),
        lit(", "),
        field(FieldSymbol::Year(Year::Calendar), FieldLength::One),
        lit(" "),
        field(FieldSymbol::Era, FieldLength::Five),
        lit(" at "),
        field(FieldSymbol::Hour(Hour::H12), FieldLength::Two),
        lit(":"),
        field(FieldSymbol::Minute, FieldLength::Two),
        lit(" "),
        field(FieldSymbol::DayPeriod(DayPeriod::AmPm), FieldLength::One),
        lit("!"),
    ])
}

/// Gregorian 2023-10-25, 15:00:55.
fn english_input() -> RuntimeInput {
    RuntimeInput {
        year: Some(YearInfo {
            year_number: 2023,
            era: Some(FormattingEra::Index(1)),
            cyclic: None,
            related_iso: None,
        }),
        month: Some(MonthInfo { code: s("M10"), ordinal: 10 }),
        day_of_month: Some(25),
        day_of_year: None,
        day_of_week_in_month: None,
        iso_weekday: Some(IsoWeekday::Wednesday),
        hour: Some(15),
        minute: Some(0),
        second: Some(55),
        nanosecond: Some(0),
        zone: None,
    }
}

#[test]
fn test_basic_pattern_formatting() {
    let mut names = TypedDateTimeNames::try_new(s("en"), english_backend()).unwrap();
    names.include_month_names(MonthNameLength::Wide).unwrap();
    names.include_weekday_names(WeekdayNameLength::Abbreviated).unwrap();
    names.include_year_names(YearNameLength::Narrow).unwrap();
    names.include_day_period_names(DayPeriodNameLength::Abbreviated).unwrap();
    let pattern = english_pattern();
    let formatted = names.with_pattern_unchecked(&pattern).format(&english_input());
    assert_eq!(formatted.text, s("It is Wed, October 25, 2023 A at 03:00 PM!"));
    assert_eq!(formatted.first_error, None);
}

#[test]
fn load_for_pattern_loads_everything_needed() {
    let mut names = TypedDateTimeNames::new_without_number_formatting(s("en"), english_backend());
    let pattern = english_pattern();
    let formatted = names.include_for_pattern(&pattern).unwrap().format(&english_input());
    assert_eq!(formatted.text, s("It is Wed, October 25, 2023 A at 03:00 PM!"));
    assert_eq!(formatted.first_error, None);
}

fn entry(key: &str, name: &str) -> datetime_names::data::NameEntry {
    datetime_names::data::NameEntry { key: s(key), name: s(name) }
}

fn ukrainian_backend() -> MemoryDataProvider {
    let mut provider = MemoryDataProvider::new();
    let eras = |abbr: &str| {
        DataPayload::Year(YearNames::VariableEras(vec![
            entry("bce", "до н. е."),
            entry("ce", abbr),
        ]))
    };
    provider.insert(
        key(DataCategory::YearNames, Some(YearNameLength::Abbreviated.to_attributes()), "uk"),
        eras("н. е."),
    );
    provider.insert(
        key(DataCategory::YearNames, Some(YearNameLength::Wide.to_attributes()), "uk"),
        eras("нашої ери"),
    );
    provider.insert(
        key(DataCategory::YearNames, Some(YearNameLength::Narrow.to_attributes()), "uk"),
        eras("н.е."),
    );
    provider.insert(key(DataCategory::DecimalSymbols, None, "uk"), ascii_decimal_symbols());
    provider
}

/// Gregorian 2023-11-17, 13:41:28.
fn ukrainian_input() -> RuntimeInput {
    RuntimeInput {
        year: Some(YearInfo {
            year_number: 2023,
            era: Some(FormattingEra::Code(s("ce"))),
            cyclic: None,
            related_iso: None,
        }),
        month: Some(MonthInfo { code: s("M11"), ordinal: 11 }),
        day_of_month: Some(17),
        day_of_year: None,
        day_of_week_in_month: None,
        iso_weekday: Some(IsoWeekday::Friday),
        hour: Some(13),
        minute: Some(41),
        second: Some(28),
        nanosecond: Some(0),
        zone: None,
    }
}

fn bracket_pattern(symbol: FieldSymbol, length: FieldLength) -> DateTimePattern {
    DateTimePattern::from_items(vec![lit("<"), field(symbol, length), lit(">")])
}

#[test]
fn test_era_coverage() {
    let cases = [
        (FieldLength::One, YearNameLength::Abbreviated, "<н. е.>"),
        (FieldLength::Two, YearNameLength::Abbreviated, "<н. е.>"),
        (FieldLength::Three, YearNameLength::Abbreviated, "<н. е.>"),
        (FieldLength::Four, YearNameLength::Wide, "<нашої ери>"),
        (FieldLength::Five, YearNameLength::Narrow, "<н.е.>"),
    ];
    for (length, year_length, expected) in cases {
        let mut names = TypedDateTimeNames::try_new(s("uk"), ukrainian_backend()).unwrap();
        names.include_year_names(year_length).unwrap();
        let pattern = bracket_pattern(FieldSymbol::Era, length);
        let formatted = names.with_pattern_unchecked(&pattern).format(&ukrainian_input());
        assert_eq!(formatted.text, s(expected), "era length {length:?}");
        assert_eq!(formatted.first_error, None, "era length {length:?}");
    }
}

fn ukrainian_month_backend() -> MemoryDataProvider {
    let mut provider = MemoryDataProvider::new();
    // Ukrainian has different values for the format and the stand-alone
    // contexts.
    let table = |wide: bool, standalone: bool| -> DataPayload {
        let name = match (wide, standalone) {
            (false, false) => "лист.",
            (true, false) => "листопада",
            (false, true) => "лист.",
            (true, true) => "листопад",
        };
        let mut names = strings(&["x"; 12]);
        names[10] = s(name);
        DataPayload::Month(MonthNames::Linear(names))
    };
    let narrow = |standalone: bool| -> DataPayload {
        let mut names = strings(&["x"; 12]);
        names[10] = if standalone { s("Л") } else { s("л") };
        DataPayload::Month(MonthNames::Linear(names))
    };
    provider.insert(
        key(DataCategory::MonthNames, Some(MonthNameLength::Abbreviated.to_attributes()), "uk"),
        table(false, false),
    );
    provider.insert(
        key(DataCategory::MonthNames, Some(MonthNameLength::Wide.to_attributes()), "uk"),
        table(true, false),
    );
    provider.insert(
        key(DataCategory::MonthNames, Some(MonthNameLength::Narrow.to_attributes()), "uk"),
        narrow(false),
    );
    provider.insert(
        key(
            DataCategory::MonthNames,
            Some(MonthNameLength::StandaloneAbbreviated.to_attributes()),
            "uk",
        ),
        table(false, true),
    );
    provider.insert(
        key(DataCategory::MonthNames, Some(MonthNameLength::StandaloneWide.to_attributes()), "uk"),
        table(true, true),
    );
    provider.insert(
        key(
            DataCategory::MonthNames,
            Some(MonthNameLength::StandaloneNarrow.to_attributes()),
            "uk",
        ),
        narrow(true),
    );
    provider.insert(key(DataCategory::DecimalSymbols, None, "uk"), ascii_decimal_symbols());
    provider
}

#[test]
fn test_month_coverage() {
    let cases = [
        (Month::Format, FieldLength::Three, MonthNameLength::Abbreviated, "<лист.>"),
        (Month::Format, FieldLength::Four, MonthNameLength::Wide, "<листопада>"),
        (Month::Format, FieldLength::Five, MonthNameLength::Narrow, "<л>"),
        (Month::StandAlone, FieldLength::Three, MonthNameLength::StandaloneAbbreviated, "<лист.>"),
        (Month::StandAlone, FieldLength::Four, MonthNameLength::StandaloneWide, "<листопад>"),
        (Month::StandAlone, FieldLength::Five, MonthNameLength::StandaloneNarrow, "<Л>"),
    ];
    for (symbol, length, month_length, expected) in cases {
        let mut names = TypedDateTimeNames::try_new(s("uk"), ukrainian_month_backend()).unwrap();
        names.include_month_names(month_length).unwrap();
        let pattern = bracket_pattern(FieldSymbol::Month(symbol), length);
        let formatted = names.with_pattern_unchecked(&pattern).format(&ukrainian_input());
        assert_eq!(formatted.text, s(expected), "month {symbol:?} {length:?}");
        assert_eq!(formatted.first_error, None, "month {symbol:?} {length:?}");
    }
}

fn ukrainian_weekday_backend() -> MemoryDataProvider {
    let mut provider = MemoryDataProvider::new();
    // Friday is entry five of a Sunday-first table.
    let table = |name: &str| -> DataPayload {
        let mut names = strings(&["x"; 7]);
        names[5] = s(name);
        DataPayload::Weekday(WeekdayNames { names })
    };
    provider.insert(
        key(DataCategory::WeekdayNames, Some(WeekdayNameLength::Abbreviated.to_attributes()), "uk"),
        table("пт"),
    );
    provider.insert(
        key(DataCategory::WeekdayNames, Some(WeekdayNameLength::Wide.to_attributes()), "uk"),
        table("пʼятниця"),
    );
    provider.insert(
        key(DataCategory::WeekdayNames, Some(WeekdayNameLength::Narrow.to_attributes()), "uk"),
        table("П"),
    );
    provider.insert(
        key(DataCategory::WeekdayNames, Some(WeekdayNameLength::Short.to_attributes()), "uk"),
        table("пт"),
    );
    provider.insert(
        key(
            DataCategory::WeekdayNames,
            Some(WeekdayNameLength::StandaloneAbbreviated.to_attributes()),
            "uk",
        ),
        table("пт"),
    );
    provider.insert(
        key(
            DataCategory::WeekdayNames,
            Some(WeekdayNameLength::StandaloneWide.to_attributes()),
            "uk",
        ),
        table("пʼятниця"),
    );
    provider.insert(
        key(
            DataCategory::WeekdayNames,
            Some(WeekdayNameLength::StandaloneNarrow.to_attributes()),
            "uk",
        ),
        table("П"),
    );
    provider.insert(
        key(
            DataCategory::WeekdayNames,
            Some(WeekdayNameLength::StandaloneShort.to_attributes()),
            "uk",
        ),
        table("пт"),
    );
    provider.insert(key(DataCategory::DecimalSymbols, None, "uk"), ascii_decimal_symbols());
    provider
}

#[test]
fn test_weekday_coverage() {
    let cases = [
        (Weekday::Format, FieldLength::One, WeekdayNameLength::Abbreviated, "<пт>"),
        (Weekday::Format, FieldLength::Two, WeekdayNameLength::Abbreviated, "<пт>"),
        (Weekday::Format, FieldLength::Three, WeekdayNameLength::Abbreviated, "<пт>"),
        (Weekday::Format, FieldLength::Four, WeekdayNameLength::Wide, "<пʼятниця>"),
        (Weekday::Format, FieldLength::Five, WeekdayNameLength::Narrow, "<П>"),
        (Weekday::Format, FieldLength::Six, WeekdayNameLength::Short, "<пт>"),
        (Weekday::Local, FieldLength::Three, WeekdayNameLength::Abbreviated, "<пт>"),
        (Weekday::Local, FieldLength::Four, WeekdayNameLength::Wide, "<пʼятниця>"),
        (Weekday::Local, FieldLength::Five, WeekdayNameLength::Narrow, "<П>"),
        (Weekday::Local, FieldLength::Six, WeekdayNameLength::Short, "<пт>"),
        (Weekday::StandAlone, FieldLength::Three, WeekdayNameLength::StandaloneAbbreviated, "<пт>"),
        (Weekday::StandAlone, FieldLength::Four, WeekdayNameLength::StandaloneWide, "<пʼятниця>"),
        (Weekday::StandAlone, FieldLength::Five, WeekdayNameLength::StandaloneNarrow, "<П>"),
        (Weekday::StandAlone, FieldLength::Six, WeekdayNameLength::StandaloneShort, "<пт>"),
    ];
    for (symbol, length, weekday_length, expected) in cases {
        let mut names = TypedDateTimeNames::try_new(s("uk"), ukrainian_weekday_backend()).unwrap();
        names.include_weekday_names(weekday_length).unwrap();
        let pattern = bracket_pattern(FieldSymbol::Weekday(symbol), length);
        let formatted = names.with_pattern_unchecked(&pattern).format(&ukrainian_input());
        assert_eq!(formatted.text, s(expected), "weekday {symbol:?} {length:?}");
        assert_eq!(formatted.first_error, None, "weekday {symbol:?} {length:?}");
    }
}

fn thai_backend() -> MemoryDataProvider {
    let mut provider = MemoryDataProvider::new();
    // Thai has different day periods for different lengths.
    let table = |am: &str, pm: &str| -> DataPayload {
        DataPayload::DayPeriod(DayPeriodNames {
            am: Some(s(am)),
            pm: Some(s(pm)),
            noon: None,
            midnight: None,
        })
    };
    provider.insert(
        key(
            DataCategory::DayPeriodNames,
            Some(DayPeriodNameLength::Abbreviated.to_attributes()),
            "th",
        ),
        table("AM", "PM"),
    );
    provider.insert(
        key(DataCategory::DayPeriodNames, Some(DayPeriodNameLength::Wide.to_attributes()), "th"),
        table("ก่อนเที่ยง", "หลังเที่ยง"),
    );
    provider.insert(
        key(DataCategory::DayPeriodNames, Some(DayPeriodNameLength::Narrow.to_attributes()), "th"),
        table("a", "p"),
    );
    provider.insert(key(DataCategory::DecimalSymbols, None, "th"), ascii_decimal_symbols());
    provider
}

#[test]
fn test_dayperiod_coverage() {
    let cases = [
        (DayPeriod::AmPm, FieldLength::One, DayPeriodNameLength::Abbreviated, "<PM>"),
        (DayPeriod::AmPm, FieldLength::Two, DayPeriodNameLength::Abbreviated, "<PM>"),
        (DayPeriod::AmPm, FieldLength::Three, DayPeriodNameLength::Abbreviated, "<PM>"),
        (DayPeriod::AmPm, FieldLength::Four, DayPeriodNameLength::Wide, "<หลังเที่ยง>"),
        (DayPeriod::AmPm, FieldLength::Five, DayPeriodNameLength::Narrow, "<p>"),
        (DayPeriod::NoonMidnight, FieldLength::One, DayPeriodNameLength::Abbreviated, "<PM>"),
        (DayPeriod::NoonMidnight, FieldLength::Two, DayPeriodNameLength::Abbreviated, "<PM>"),
        (DayPeriod::NoonMidnight, FieldLength::Three, DayPeriodNameLength::Abbreviated, "<PM>"),
        (DayPeriod::NoonMidnight, FieldLength::Four, DayPeriodNameLength::Wide, "<หลังเที่ยง>"),
        (DayPeriod::NoonMidnight, FieldLength::Five, DayPeriodNameLength::Narrow, "<p>"),
    ];
    for (symbol, length, period_length, expected) in cases {
        let mut names = TypedDateTimeNames::try_new(s("th"), thai_backend()).unwrap();
        names.include_day_period_names(period_length).unwrap();
        let pattern = bracket_pattern(FieldSymbol::DayPeriod(symbol), length);
        let formatted = names.with_pattern_unchecked(&pattern).format(&ukrainian_input());
        assert_eq!(formatted.text, s(expected), "day period {symbol:?} {length:?}");
        assert_eq!(formatted.first_error, None, "day period {symbol:?} {length:?}");
    }
}

#[test]
fn empty_formatter_degrades_every_field() {
    // Nothing is loaded: every name field renders as its bracket
    // placeholder, every numeric field as plain ASCII digits, and the
    // surfaced error is the first field's error in pattern order.
    let names = TypedDateTimeNames::new_without_number_formatting(s("en"), EmptyDataProvider);
    let pattern = DateTimePattern::from_items(vec![
        lit("It is: "),
        field(FieldSymbol::Weekday(Weekday::Format), FieldLength::One),
        lit(" "),
        field(FieldSymbol::Month(Month::Format), FieldLength::Three),
        lit(" "),
        field(FieldSymbol::Day(Day::DayOfMonth), FieldLength::One),
        lit(" "),
        field(FieldSymbol::Year(Year::Calendar), FieldLength::One),
        lit(" "),
        field(FieldSymbol::Era, FieldLength::One),
        lit(" at "),
        field(FieldSymbol::Hour(Hour::H12), FieldLength::One),
        lit(":"),
        field(FieldSymbol::Minute, FieldLength::Two),
        lit(":"),
        field(FieldSymbol::DecimalSecond(DecimalSecond::Subsecond3), FieldLength::Two),
        lit(" "),
        field(FieldSymbol::DayPeriod(DayPeriod::AmPm), FieldLength::One),
        lit(" "),
        field(FieldSymbol::TimeZone(TimeZone::SpecificNonLocation), FieldLength::Four),
    ]);
    let mut input = english_input();
    input.zone = Some(ZoneInput {
        offset_seconds: Some(0),
        zone_id: Some(s("gblon")),
        variant: Some(ZoneVariant::Standard),
    });
    let formatted = names.with_pattern_unchecked(&pattern).format(&input);
    assert_eq!(
        formatted.text,
        s("It is: {E} {M} 25 2023 {G} at 3:00:55.000 {a} {z}")
    );
    assert_eq!(
        formatted.first_error,
        Some(DateTimeWriteError::NamesNotLoaded(ErrorField(Field {
            symbol: FieldSymbol::Weekday(Weekday::Format),
            length: FieldLength::One,
        })))
    );
    // The failed weekday span carries the error part and the semantic
    // part over the same range.
    let weekday_parts: Vec<_> = formatted
        .parts
        .iter()
        .filter(|p| p.start == 7 && p.end == 10)
        .map(|p| p.part)
        .collect();
    assert_eq!(weekday_parts, vec![Part::Error, Part::Weekday]);
}

#[test]
fn missing_input_degrades_to_placeholders() {
    let mut names = TypedDateTimeNames::try_new(s("en"), english_backend()).unwrap();
    names.include_month_names(MonthNameLength::Wide).unwrap();
    let pattern = DateTimePattern::from_items(vec![
        field(FieldSymbol::Month(Month::Format), FieldLength::Four),
        lit(" "),
        field(FieldSymbol::Day(Day::DayOfMonth), FieldLength::Two),
    ]);
    let formatted = names.with_pattern_unchecked(&pattern).format(&RuntimeInput::empty());
    assert_eq!(formatted.text, s("{M} {d}"));
    assert_eq!(
        formatted.first_error,
        Some(DateTimeWriteError::MissingInputField("month"))
    );
}

#[test]
fn numeric_padding_and_two_digit_years() {
    let mut provider = MemoryDataProvider::new();
    provider.insert(key(DataCategory::DecimalSymbols, None, "en"), ascii_decimal_symbols());
    let names = TypedDateTimeNames::try_new(s("en"), provider).unwrap();
    let pattern = DateTimePattern::from_items(vec![
        field(FieldSymbol::Year(Year::Calendar), FieldLength::Two),
        lit("-"),
        field(FieldSymbol::Month(Month::Format), FieldLength::Two),
        lit("-"),
        field(FieldSymbol::Day(Day::DayOfMonth), FieldLength::Two),
    ]);
    let mut input = english_input();
    input.day_of_month = Some(3);
    let formatted = names.with_pattern_unchecked(&pattern).format(&input);
    assert_eq!(formatted.text, s("23-10-03"));
    assert_eq!(formatted.first_error, None);
}

#[test]
fn locale_digits_render_numeric_fields() {
    // Digit symbols other than ASCII: every numeric span uses them.
    let mut provider = MemoryDataProvider::new();
    provider.insert(
        key(DataCategory::DecimalSymbols, None, "bn"),
        DataPayload::Decimal(DecimalSymbols {
            digits: strings(&["০", "১", "২", "৩", "৪", "৫", "৬", "৭", "৮", "৯"]),
            minus_sign: s("-"),
            decimal_separator: s("."),
        }),
    );
    let names = TypedDateTimeNames::try_new(s("bn"), provider).unwrap();
    let pattern = DateTimePattern::from_items(vec![
        field(FieldSymbol::Hour(Hour::H23), FieldLength::Two),
        lit(":"),
        field(FieldSymbol::Minute, FieldLength::Two),
    ]);
    let mut input = RuntimeInput::empty();
    input.hour = Some(6);
    input.minute = Some(40);
    let formatted = names.with_pattern_unchecked(&pattern).format(&input);
    assert_eq!(formatted.text, s("০৬:৪০"));
    assert_eq!(formatted.first_error, None);
}
