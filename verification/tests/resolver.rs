//! The name resolver's per-category edge cases.

use datetime_names::data::{
    DayPeriodNames, MonthNames, NameEntry, WeekdayNames, YearNames,
};
use datetime_names::errors::{
    GetNameForCyclicYearError, GetNameForEraError, GetNameForMonthError, GetNameForWeekdayError,
};
use datetime_names::fields::{DayPeriod, FieldLength, Month, Weekday};
use datetime_names::input::{FormattingEra, IsoWeekday};
use datetime_names::length::{
    DayPeriodNameLength, MonthNameLength, WeekdayNameLength, YearNameLength,
};
use datetime_names::names::{DateTimeNames, MonthPlaceholderValue};
use datetime_names::slots::NameSlot;

fn s(text: &str) -> String {
    String::from(text)
}

fn strings(names: &[&str]) -> Vec<String> {
    names.iter().map(|n| s(n)).collect()
}

#[test]
fn weekday_indexing_never_panics() {
    // A Sunday-first table of seven entries, indexed by the ISO weekday
    // number modulo seven.
    let mut names = DateTimeNames::new_empty();
    names.weekday_names = NameSlot::Loaded(
        WeekdayNameLength::Abbreviated,
        WeekdayNames { names: strings(&["Sun", "Mon", "Tue", "Wed", "Thu", "Fri", "Sat"]) },
    );
    let days = [
        (IsoWeekday::Monday, "Mon"),
        (IsoWeekday::Tuesday, "Tue"),
        (IsoWeekday::Wednesday, "Wed"),
        (IsoWeekday::Thursday, "Thu"),
        (IsoWeekday::Friday, "Fri"),
        (IsoWeekday::Saturday, "Sat"),
        (IsoWeekday::Sunday, "Sun"),
    ];
    for (day, expected) in days {
        let name = names.get_name_for_weekday(Weekday::Format, FieldLength::One, day);
        assert_eq!(name, Ok(s(expected)), "weekday {day:?}");
        assert_eq!(names.get_name_for_weekday(Weekday::Format, FieldLength::One, day),
            Ok(s(&names_table_entry(day))));
    }
    // A table that is too short is reported as not loaded, never a panic.
    let mut short = DateTimeNames::new_empty();
    short.weekday_names = NameSlot::Loaded(
        WeekdayNameLength::Abbreviated,
        WeekdayNames { names: strings(&["Sun", "Mon"]) },
    );
    assert_eq!(
        short.get_name_for_weekday(Weekday::Format, FieldLength::One, IsoWeekday::Wednesday),
        Err(GetNameForWeekdayError::NotLoaded)
    );
}

fn names_table_entry(day: IsoWeekday) -> String {
    let table = ["Sun", "Mon", "Tue", "Wed", "Thu", "Fri", "Sat"];
    s(table[day.number() % 7])
}

#[test]
fn leap_month_lookup() {
    // A leap-aware table of four regular and four leap names.
    let mut names = DateTimeNames::new_empty();
    names.month_names = NameSlot::Loaded(
        MonthNameLength::Wide,
        MonthNames::LeapLinear(strings(&["R1", "R2", "R3", "R4", "L1", "L2", "L3", "L4"])),
    );
    // Regular month k answers entry k - 1.
    assert_eq!(
        names.get_name_for_month(Month::Format, FieldLength::Four, "M03"),
        Ok(MonthPlaceholderValue::PlainString(s("R3")))
    );
    // The leap variant of month k answers entry n + k - 1.
    assert_eq!(
        names.get_name_for_month(Month::Format, FieldLength::Four, "M03L"),
        Ok(MonthPlaceholderValue::PlainString(s("L3")))
    );
    // A leap variant beyond the table's range is an invalid month code.
    assert_eq!(
        names.get_name_for_month(Month::Format, FieldLength::Four, "M05L"),
        Err(GetNameForMonthError::InvalidMonthCode)
    );
    // So is a regular month beyond the regular half.
    assert_eq!(
        names.get_name_for_month(Month::Format, FieldLength::Four, "M05"),
        Err(GetNameForMonthError::InvalidMonthCode)
    );
}

#[test]
fn linear_month_table_rejects_leap() {
    let mut names = DateTimeNames::new_empty();
    names.month_names = NameSlot::Loaded(
        MonthNameLength::Abbreviated,
        MonthNames::Linear(strings(&["Jan", "Feb", "Mar"])),
    );
    assert_eq!(
        names.get_name_for_month(Month::Format, FieldLength::Three, "M02"),
        Ok(MonthPlaceholderValue::PlainString(s("Feb")))
    );
    assert_eq!(
        names.get_name_for_month(Month::Format, FieldLength::Three, "M02L"),
        Err(GetNameForMonthError::InvalidMonthCode)
    );
    assert_eq!(
        names.get_name_for_month(Month::Format, FieldLength::Three, "M00"),
        Err(GetNameForMonthError::InvalidMonthCode)
    );
    assert_eq!(
        names.get_name_for_month(Month::Format, FieldLength::Three, "month"),
        Err(GetNameForMonthError::InvalidMonthCode)
    );
}

#[test]
fn leap_numeric_table_signals_numeric_rendering() {
    let mut names = DateTimeNames::new_empty();
    names.month_names = NameSlot::Loaded(
        MonthNameLength::Abbreviated,
        MonthNames::LeapNumeric(s("bis ")),
    );
    assert_eq!(
        names.get_name_for_month(Month::Format, FieldLength::Three, "M07"),
        Ok(MonthPlaceholderValue::Numeric)
    );
    assert_eq!(
        names.get_name_for_month(Month::Format, FieldLength::Three, "M07L"),
        Ok(MonthPlaceholderValue::NumericPattern(s("bis ")))
    );
}

#[test]
fn day_period_fallback_to_am_pm() {
    // A table that defines only am and pm: the noon-midnight symbol must
    // behave exactly like the am-pm symbol, without a separate code path.
    let mut names = DateTimeNames::new_empty();
    names.dayperiod_names = NameSlot::Loaded(
        DayPeriodNameLength::Abbreviated,
        DayPeriodNames { am: Some(s("AM")), pm: Some(s("PM")), noon: None, midnight: None },
    );
    let via_noon_midnight =
        names.get_name_for_day_period(DayPeriod::NoonMidnight, FieldLength::One, 0, true);
    let via_am_pm = names.get_name_for_day_period(DayPeriod::AmPm, FieldLength::One, 0, true);
    assert_eq!(via_noon_midnight, via_am_pm);
    assert_eq!(via_noon_midnight, Ok(s("AM")));
    let noon_nm = names.get_name_for_day_period(DayPeriod::NoonMidnight, FieldLength::One, 12, true);
    let noon_ap = names.get_name_for_day_period(DayPeriod::AmPm, FieldLength::One, 12, true);
    assert_eq!(noon_nm, noon_ap);
    assert_eq!(noon_nm, Ok(s("PM")));
}

#[test]
fn day_period_prefers_noon_and_midnight() {
    let mut names = DateTimeNames::new_empty();
    names.dayperiod_names = NameSlot::Loaded(
        DayPeriodNameLength::Abbreviated,
        DayPeriodNames {
            am: Some(s("AM")),
            pm: Some(s("PM")),
            noon: Some(s("noon")),
            midnight: Some(s("midnight")),
        },
    );
    assert_eq!(
        names.get_name_for_day_period(DayPeriod::NoonMidnight, FieldLength::One, 0, true),
        Ok(s("midnight"))
    );
    assert_eq!(
        names.get_name_for_day_period(DayPeriod::NoonMidnight, FieldLength::One, 12, true),
        Ok(s("noon"))
    );
    // Not at the top of the hour, the plain am and pm names win.
    assert_eq!(
        names.get_name_for_day_period(DayPeriod::NoonMidnight, FieldLength::One, 12, false),
        Ok(s("PM"))
    );
    // The am-pm symbol never uses the noon and midnight names.
    assert_eq!(
        names.get_name_for_day_period(DayPeriod::AmPm, FieldLength::One, 12, true),
        Ok(s("PM"))
    );
}

#[test]
fn era_lookup_by_code_and_index() {
    let mut names = DateTimeNames::new_empty();
    names.year_names = NameSlot::Loaded(
        YearNameLength::Abbreviated,
        YearNames::VariableEras(vec![
            NameEntry { key: s("bce"), name: s("BC") },
            NameEntry { key: s("ce"), name: s("AD") },
        ]),
    );
    assert_eq!(
        names.get_name_for_era(FieldLength::One, &FormattingEra::Code(s("ce"))),
        Ok(s("AD"))
    );
    assert_eq!(
        names.get_name_for_era(FieldLength::One, &FormattingEra::Code(s("reiwa"))),
        Err(GetNameForEraError::InvalidEraCode)
    );
    // An index against a code-keyed table is a mismatched pairing.
    assert_eq!(
        names.get_name_for_era(FieldLength::One, &FormattingEra::Index(1)),
        Err(GetNameForEraError::InvalidEraCode)
    );
    let mut fixed = DateTimeNames::new_empty();
    fixed.year_names = NameSlot::Loaded(
        YearNameLength::Narrow,
        YearNames::FixedEras(strings(&["B", "A"])),
    );
    assert_eq!(
        fixed.get_name_for_era(FieldLength::Five, &FormattingEra::Index(1)),
        Ok(s("A"))
    );
    assert_eq!(
        fixed.get_name_for_era(FieldLength::Five, &FormattingEra::Index(9)),
        Err(GetNameForEraError::InvalidEraCode)
    );
    // A request against the wrong loaded width answers not-loaded.
    assert_eq!(
        fixed.get_name_for_era(FieldLength::Four, &FormattingEra::Index(1)),
        Err(GetNameForEraError::NotLoaded)
    );
}

#[test]
fn cyclic_year_lookup_reports_bound() {
    let mut names = DateTimeNames::new_empty();
    names.year_names = NameSlot::Loaded(
        YearNameLength::Abbreviated,
        YearNames::Cyclic(strings(&["jia-zi", "yi-chou", "bing-yin"])),
    );
    assert_eq!(names.get_name_for_cyclic(FieldLength::One, 1), Ok(s("jia-zi")));
    assert_eq!(names.get_name_for_cyclic(FieldLength::One, 3), Ok(s("bing-yin")));
    assert_eq!(
        names.get_name_for_cyclic(FieldLength::One, 4),
        Err(GetNameForCyclicYearError::InvalidYearNumber { max: 4 })
    );
}
