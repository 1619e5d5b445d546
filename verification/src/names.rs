//! The name containers and the name resolver.
//!
//! A [`DateTimeNames`] holds one slot per name category.  The resolver
//! methods read the slots and a runtime field value and compute a display
//! string, a numeric-rendering instruction, or a structured error; they
//! encapsulate the per-category edge cases: leap months, cyclic year
//! indices, day-period noon-and-midnight fallback, era codes against era
//! indices.

use vstd::prelude::*;
use crate::data::{
    DayPeriodNames, DayPeriodNamesModel, DecimalSymbols, DecimalSymbolsModel, MonthNames,
    MonthNamesModel, MzGeneric, MzGenericModel, MzPeriods, MzPeriodsModel, MzSpecific,
    MzSpecificModel, NameEntry, NameEntryModel, WeekdayNames, WeekdayNamesModel, YearNames,
    YearNamesModel, ZoneEssentials, ZoneEssentialsModel, ZoneExemplars, ZoneExemplarsModel,
    ZoneLocations, ZoneLocationsModel, entries_view,
};
use crate::errors::{
    GetNameForCyclicYearError, GetNameForDayPeriodError, GetNameForEraError, GetNameForMonthError,
    GetNameForWeekdayError,
};
use crate::fields::{DayPeriod, FieldLength, Month, Weekday};
use crate::input::{
    FormattingEraModel, IsoWeekday, parse_month_code, spec_parse_month_code,
};
use crate::length::{
    DayPeriodNameLength, MonthNameLength, WeekdayNameLength, YearNameLength,
};
use crate::slots::{NameSlot, SlotModel, slot_get};

verus! {

/// The first name filed under a key, front to back.
pub open spec fn spec_lookup_name(entries: Seq<NameEntryModel>, key: Seq<char>) -> Option<
    Seq<char>,
>
    decreases entries.len(),
{
    if entries.len() == 0 {
        None
    } else if entries[0].key == key {
        Some(entries[0].name)
    } else {
        spec_lookup_name(entries.drop_first(), key)
    }
}

/// Finds the first name filed under a key.
pub fn lookup_name(entries: &Vec<NameEntry>, key: &String) -> (r: Option<String>)
    ensures
        match r {
            Some(s) => spec_lookup_name(entries_view(entries@), key@) == Some(s@),
            None => spec_lookup_name(entries_view(entries@), key@) is None,
        },
{
    let ghost all = entries_view(entries@);
    let mut i: usize = 0;
    proof {
        assert(all.skip(0) =~= all);
    }
    while i < entries.len()
        invariant
            i <= entries.len(),
            all == entries_view(entries@),
            spec_lookup_name(all.skip(i as int), key@) == spec_lookup_name(all, key@),
        decreases entries.len() - i,
    {
        let entry = &entries[i];
        proof {
            assert(all.skip(i as int)[0] == all[i as int]);
        }
        if entry.key == *key {
            return Some(entry.name.clone());
        }
        proof {
            assert(all.skip(i as int).drop_first() =~= all.skip(i as int + 1));
        }
        i += 1;
    }
    proof {
        assert(all.skip(i as int).len() == 0);
    }
    None
}

/// What a month lookup hands the interpreter: a finished name, or the
/// instruction to render the month number, optionally through a leap
/// substitution pattern.
#[derive(Debug, Clone, PartialEq, Eq)]
pub enum MonthPlaceholderValue {
    /// A display name, used as is.
    PlainString(String),
    /// Render the month number numerically.
    Numeric,
    /// Render the month number numerically through the carried leap
    /// substitution pattern.
    NumericPattern(String),
}

/// The model of a [`MonthPlaceholderValue`].
pub enum MonthPlaceholderModel {
    PlainString(Seq<char>),
    Numeric,
    NumericPattern(Seq<char>),
}

impl View for MonthPlaceholderValue {
    type V = MonthPlaceholderModel;

    open spec fn view(&self) -> MonthPlaceholderModel {
        match self {
            MonthPlaceholderValue::PlainString(s) => MonthPlaceholderModel::PlainString(s@),
            MonthPlaceholderValue::Numeric => MonthPlaceholderModel::Numeric,
            MonthPlaceholderValue::NumericPattern(s) => MonthPlaceholderModel::NumericPattern(s@),
        }
    }
}

/// The model of a [`DateTimeNames`]: every slot by its model.
pub struct NamesModel {
    pub year_names: SlotModel<YearNameLength, YearNamesModel>,
    pub month_names: SlotModel<MonthNameLength, MonthNamesModel>,
    pub weekday_names: SlotModel<WeekdayNameLength, WeekdayNamesModel>,
    pub dayperiod_names: SlotModel<DayPeriodNameLength, DayPeriodNamesModel>,
    pub zone_essentials: SlotModel<(), ZoneEssentialsModel>,
    pub locations_root: SlotModel<(), ZoneLocationsModel>,
    pub locations: SlotModel<(), ZoneLocationsModel>,
    pub exemplars_root: SlotModel<(), ZoneExemplarsModel>,
    pub exemplars: SlotModel<(), ZoneExemplarsModel>,
    pub mz_generic_long: SlotModel<(), MzGenericModel>,
    pub mz_generic_short: SlotModel<(), MzGenericModel>,
    pub mz_specific_long: SlotModel<(), MzSpecificModel>,
    pub mz_specific_short: SlotModel<(), MzSpecificModel>,
    pub mz_periods: SlotModel<(), MzPeriodsModel>,
    pub fixed_decimal_formatter: Option<DecimalSymbolsModel>,
}

/// One slot per name category, and the lazily loaded digit symbols.
///
/// Each slot is written at most once, by the loading methods; the
/// resolver and the interpreter only read.
#[derive(Debug)]
pub struct DateTimeNames {
    pub year_names: NameSlot<YearNameLength, YearNames>,
    pub month_names: NameSlot<MonthNameLength, MonthNames>,
    pub weekday_names: NameSlot<WeekdayNameLength, WeekdayNames>,
    pub dayperiod_names: NameSlot<DayPeriodNameLength, DayPeriodNames>,
    pub zone_essentials: NameSlot<(), ZoneEssentials>,
    pub locations_root: NameSlot<(), ZoneLocations>,
    pub locations: NameSlot<(), ZoneLocations>,
    pub exemplars_root: NameSlot<(), ZoneExemplars>,
    pub exemplars: NameSlot<(), ZoneExemplars>,
    pub mz_generic_long: NameSlot<(), MzGeneric>,
    pub mz_generic_short: NameSlot<(), MzGeneric>,
    pub mz_specific_long: NameSlot<(), MzSpecific>,
    pub mz_specific_short: NameSlot<(), MzSpecific>,
    pub mz_periods: NameSlot<(), MzPeriods>,
    pub fixed_decimal_formatter: Option<DecimalSymbols>,
}

impl View for DateTimeNames {
    type V = NamesModel;

    open spec fn view(&self) -> NamesModel {
        NamesModel {
            year_names: self.year_names@,
            month_names: self.month_names@,
            weekday_names: self.weekday_names@,
            dayperiod_names: self.dayperiod_names@,
            zone_essentials: self.zone_essentials@,
            locations_root: self.locations_root@,
            locations: self.locations@,
            exemplars_root: self.exemplars_root@,
            exemplars: self.exemplars@,
            mz_generic_long: self.mz_generic_long@,
            mz_generic_short: self.mz_generic_short@,
            mz_specific_long: self.mz_specific_long@,
            mz_specific_short: self.mz_specific_short@,
            mz_periods: self.mz_periods@,
            fixed_decimal_formatter: match &self.fixed_decimal_formatter {
                Some(d) => Some(d@),
                None => None,
            },
        }
    }
}

impl NamesModel {
    /// A model with every slot empty.
    pub open spec fn all_empty() -> NamesModel {
        NamesModel {
            year_names: SlotModel::Empty,
            month_names: SlotModel::Empty,
            weekday_names: SlotModel::Empty,
            dayperiod_names: SlotModel::Empty,
            zone_essentials: SlotModel::Empty,
            locations_root: SlotModel::Empty,
            locations: SlotModel::Empty,
            exemplars_root: SlotModel::Empty,
            exemplars: SlotModel::Empty,
            mz_generic_long: SlotModel::Empty,
            mz_generic_short: SlotModel::Empty,
            mz_specific_long: SlotModel::Empty,
            mz_specific_short: SlotModel::Empty,
            mz_periods: SlotModel::Empty,
            fixed_decimal_formatter: None,
        }
    }
}

/// The month-name lookup on the model: width resolution, month-code
/// parsing, and the three table layouts.
pub open spec fn spec_get_name_for_month(
    slot: SlotModel<MonthNameLength, MonthNamesModel>,
    field_symbol: Month,
    field_length: FieldLength,
    code: Seq<char>,
) -> Result<MonthPlaceholderModel, GetNameForMonthError> {
    match MonthNameLength::spec_from_field(field_symbol, field_length) {
        None => Err(GetNameForMonthError::InvalidFieldLength),
        Some(length) => match slot_get(slot, length) {
            None => Err(GetNameForMonthError::NotLoaded),
            Some(table) => match spec_parse_month_code(code) {
                None => Err(GetNameForMonthError::InvalidMonthCode),
                Some((number, is_leap)) => if number < 1 {
                    Err(GetNameForMonthError::InvalidMonthCode)
                } else {
                    let index = number - 1;
                    match table {
                        MonthNamesModel::Linear(v) => if is_leap {
                            Err(GetNameForMonthError::InvalidMonthCode)
                        } else if index < v.len() {
                            Ok(MonthPlaceholderModel::PlainString(v[index]))
                        } else {
                            Err(GetNameForMonthError::InvalidMonthCode)
                        },
                        MonthNamesModel::LeapLinear(v) => {
                            let regular = v.len() as int / 2;
                            if is_leap {
                                if index + regular < v.len() {
                                    Ok(MonthPlaceholderModel::PlainString(v[index + regular]))
                                } else {
                                    Err(GetNameForMonthError::InvalidMonthCode)
                                }
                            } else {
                                if index < regular {
                                    Ok(MonthPlaceholderModel::PlainString(v[index]))
                                } else {
                                    Err(GetNameForMonthError::InvalidMonthCode)
                                }
                            }
                        },
                        MonthNamesModel::LeapNumeric(p) => if is_leap {
                            Ok(MonthPlaceholderModel::NumericPattern(p))
                        } else {
                            Ok(MonthPlaceholderModel::Numeric)
                        },
                    }
                },
            },
        },
    }
}

/// The weekday-name lookup on the model: the table entry at the weekday
/// number modulo seven, where the table is long enough.
pub open spec fn spec_get_name_for_weekday(
    slot: SlotModel<WeekdayNameLength, WeekdayNamesModel>,
    field_symbol: Weekday,
    field_length: FieldLength,
    day: IsoWeekday,
) -> Result<Seq<char>, GetNameForWeekdayError> {
    match WeekdayNameLength::spec_from_field(field_symbol, field_length) {
        None => Err(GetNameForWeekdayError::InvalidFieldLength),
        Some(length) => match slot_get(slot, length) {
            None => Err(GetNameForWeekdayError::NotLoaded),
            Some(table) => {
                let index = day.spec_number() as int % 7;
                if index < table.names.len() {
                    Ok(table.names[index])
                } else {
                    Err(GetNameForWeekdayError::NotLoaded)
                }
            },
        },
    }
}

/// The era-name lookup on the model: an era code against the variable-era
/// map, or an era index against the fixed-era table; a mismatched pairing
/// or a missing entry is an invalid era.
pub open spec fn spec_get_name_for_era(
    slot: SlotModel<YearNameLength, YearNamesModel>,
    field_length: FieldLength,
    era: FormattingEraModel,
) -> Result<Seq<char>, GetNameForEraError> {
    match YearNameLength::spec_from_field_length(field_length) {
        None => Err(GetNameForEraError::InvalidFieldLength),
        Some(length) => match slot_get(slot, length) {
            None => Err(GetNameForEraError::NotLoaded),
            Some(table) => match (table, era) {
                (YearNamesModel::VariableEras(entries), FormattingEraModel::Code(code)) => {
                    match spec_lookup_name(entries, code) {
                        Some(name) => Ok(name),
                        None => Err(GetNameForEraError::InvalidEraCode),
                    }
                },
                (YearNamesModel::FixedEras(v), FormattingEraModel::Index(index)) => {
                    if index < v.len() {
                        Ok(v[index as int])
                    } else {
                        Err(GetNameForEraError::InvalidEraCode)
                    }
                },
                _ => Err(GetNameForEraError::InvalidEraCode),
            },
        },
    }
}

/// The cyclic-year lookup on the model: the one-based cyclic year against
/// the cyclic table; out of range reports the table's bound.
pub open spec fn spec_get_name_for_cyclic(
    slot: SlotModel<YearNameLength, YearNamesModel>,
    field_length: FieldLength,
    cyclic: u8,
) -> Result<Seq<char>, GetNameForCyclicYearError> {
    match YearNameLength::spec_from_field_length(field_length) {
        None => Err(GetNameForCyclicYearError::InvalidFieldLength),
        Some(length) => match slot_get(slot, length) {
            None => Err(GetNameForCyclicYearError::NotLoaded),
            Some(table) => match table {
                YearNamesModel::Cyclic(v) => {
                    if cyclic - 1 < v.len() {
                        Ok(v[cyclic - 1])
                    } else {
                        Err(GetNameForCyclicYearError::InvalidYearNumber {
                            max: (v.len() + 1) as usize,
                        })
                    }
                },
                _ => Err(GetNameForCyclicYearError::InvalidYearNumber { max: 0 }),
            },
        },
    }
}

/// The day-period lookup on the model.  Exactly at hour 0 top-of-hour the
/// noon-midnight symbol prefers the midnight name and falls back to the
/// am name; exactly at hour 12 top-of-hour it prefers noon and falls back
/// to pm.  Every other hour below 12 is am and from 12 on is pm.
pub open spec fn spec_get_name_for_day_period(
    slot: SlotModel<DayPeriodNameLength, DayPeriodNamesModel>,
    field_symbol: DayPeriod,
    field_length: FieldLength,
    hour: u8,
    is_top_of_hour: bool,
) -> Result<Seq<char>, GetNameForDayPeriodError> {
    match DayPeriodNameLength::spec_from_field(field_symbol, field_length) {
        None => Err(GetNameForDayPeriodError::InvalidFieldLength),
        Some(length) => match slot_get(slot, length) {
            None => Err(GetNameForDayPeriodError::NotLoaded),
            Some(table) => {
                let choice: Option<Seq<char>> = if field_symbol is NoonMidnight && hour == 0
                    && is_top_of_hour {
                    if table.midnight is Some {
                        table.midnight
                    } else {
                        table.am
                    }
                } else if field_symbol is NoonMidnight && hour == 12 && is_top_of_hour {
                    if table.noon is Some {
                        table.noon
                    } else {
                        table.pm
                    }
                } else if hour < 12 {
                    table.am
                } else {
                    table.pm
                };
                match choice {
                    Some(name) => Ok(name),
                    None => Err(GetNameForDayPeriodError::NotLoaded),
                }
            },
        },
    }
}

impl DateTimeNames {
    /// A container with every slot empty and no digit symbols.
    pub fn new_empty() -> (r: Self)
        ensures
            r@ == NamesModel::all_empty(),
    {
        DateTimeNames {
            year_names: NameSlot::Empty,
            month_names: NameSlot::Empty,
            weekday_names: NameSlot::Empty,
            dayperiod_names: NameSlot::Empty,
            zone_essentials: NameSlot::Empty,
            locations_root: NameSlot::Empty,
            locations: NameSlot::Empty,
            exemplars_root: NameSlot::Empty,
            exemplars: NameSlot::Empty,
            mz_generic_long: NameSlot::Empty,
            mz_generic_short: NameSlot::Empty,
            mz_specific_long: NameSlot::Empty,
            mz_specific_short: NameSlot::Empty,
            mz_periods: NameSlot::Empty,
            fixed_decimal_formatter: None,
        }
    }

    /// Looks up the month name for a month code, or the instruction to
    /// render the month numerically.
    pub fn get_name_for_month(
        &self,
        field_symbol: Month,
        field_length: FieldLength,
        code: &str,
    ) -> (r: Result<MonthPlaceholderValue, GetNameForMonthError>)
        ensures
            match r {
                Ok(v) => spec_get_name_for_month(
                    self@.month_names,
                    field_symbol,
                    field_length,
                    code@,
                ) == Ok::<MonthPlaceholderModel, GetNameForMonthError>(v@),
                Err(e) => spec_get_name_for_month(
                    self@.month_names,
                    field_symbol,
                    field_length,
                    code@,
                ) == Err::<MonthPlaceholderModel, GetNameForMonthError>(e),
            },
    {
        let month_name_length = match MonthNameLength::from_field(field_symbol, field_length) {
            None => {
                return Err(GetNameForMonthError::InvalidFieldLength);
            },
            Some(l) => l,
        };
        let table = match &self.month_names {
            NameSlot::Loaded(l, p) => {
                if *l == month_name_length {
                    p
                } else {
                    return Err(GetNameForMonthError::NotLoaded);
                }
            },
            NameSlot::Empty => {
                return Err(GetNameForMonthError::NotLoaded);
            },
        };
        let (number, is_leap) = match parse_month_code(code) {
            None => {
                return Err(GetNameForMonthError::InvalidMonthCode);
            },
            Some(p) => p,
        };
        if number < 1 {
            return Err(GetNameForMonthError::InvalidMonthCode);
        }
        let month_index: usize = (number - 1) as usize;
        match table {
            MonthNames::Linear(v) => {
                if is_leap {
                    Err(GetNameForMonthError::InvalidMonthCode)
                } else if month_index < v.len() {
                    Ok(MonthPlaceholderValue::PlainString(v[month_index].clone()))
                } else {
                    Err(GetNameForMonthError::InvalidMonthCode)
                }
            },
            MonthNames::LeapLinear(v) => {
                let regular = v.len() / 2;
                if is_leap {
                    if month_index + regular < v.len() {
                        Ok(MonthPlaceholderValue::PlainString(v[month_index + regular].clone()))
                    } else {
                        Err(GetNameForMonthError::InvalidMonthCode)
                    }
                } else {
                    if month_index < regular {
                        Ok(MonthPlaceholderValue::PlainString(v[month_index].clone()))
                    } else {
                        Err(GetNameForMonthError::InvalidMonthCode)
                    }
                }
            },
            MonthNames::LeapNumeric(p) => {
                if is_leap {
                    Ok(MonthPlaceholderValue::NumericPattern(p.clone()))
                } else {
                    Ok(MonthPlaceholderValue::Numeric)
                }
            },
        }
    }

    /// Looks up the weekday name for an ISO weekday.
    pub fn get_name_for_weekday(
        &self,
        field_symbol: Weekday,
        field_length: FieldLength,
        day: IsoWeekday,
    ) -> (r: Result<String, GetNameForWeekdayError>)
        ensures
            match r {
                Ok(s) => spec_get_name_for_weekday(
                    self@.weekday_names,
                    field_symbol,
                    field_length,
                    day,
                ) == Ok::<Seq<char>, GetNameForWeekdayError>(s@),
                Err(e) => spec_get_name_for_weekday(
                    self@.weekday_names,
                    field_symbol,
                    field_length,
                    day,
                ) == Err::<Seq<char>, GetNameForWeekdayError>(e),
            },
    {
        let weekday_name_length = match WeekdayNameLength::from_field(field_symbol, field_length) {
            None => {
                return Err(GetNameForWeekdayError::InvalidFieldLength);
            },
            Some(l) => l,
        };
        let table = match &self.weekday_names {
            NameSlot::Loaded(l, p) => {
                if *l == weekday_name_length {
                    p
                } else {
                    return Err(GetNameForWeekdayError::NotLoaded);
                }
            },
            NameSlot::Empty => {
                return Err(GetNameForWeekdayError::NotLoaded);
            },
        };
        let index = day.number() % 7;
        if index < table.names.len() {
            Ok(table.names[index].clone())
        } else {
            Err(GetNameForWeekdayError::NotLoaded)
        }
    }

    /// Looks up the era name for a runtime era, by code or by index.
    pub fn get_name_for_era(
        &self,
        field_length: FieldLength,
        era: &crate::input::FormattingEra,
    ) -> (r: Result<String, GetNameForEraError>)
        ensures
            match r {
                Ok(s) => spec_get_name_for_era(self@.year_names, field_length, era@) == Ok::<
                    Seq<char>,
                    GetNameForEraError,
                >(s@),
                Err(e) => spec_get_name_for_era(self@.year_names, field_length, era@) == Err::<
                    Seq<char>,
                    GetNameForEraError,
                >(e),
            },
    {
        let year_name_length = match YearNameLength::from_field_length(field_length) {
            None => {
                return Err(GetNameForEraError::InvalidFieldLength);
            },
            Some(l) => l,
        };
        let table = match &self.year_names {
            NameSlot::Loaded(l, p) => {
                if *l == year_name_length {
                    p
                } else {
                    return Err(GetNameForEraError::NotLoaded);
                }
            },
            NameSlot::Empty => {
                return Err(GetNameForEraError::NotLoaded);
            },
        };
        match (table, era) {
            (YearNames::VariableEras(entries), crate::input::FormattingEra::Code(code)) => {
                match lookup_name(entries, code) {
                    Some(name) => Ok(name),
                    None => Err(GetNameForEraError::InvalidEraCode),
                }
            },
            (YearNames::FixedEras(v), crate::input::FormattingEra::Index(index)) => {
                let i = *index as usize;
                if i < v.len() {
                    Ok(v[i].clone())
                } else {
                    Err(GetNameForEraError::InvalidEraCode)
                }
            },
            _ => Err(GetNameForEraError::InvalidEraCode),
        }
    }

    /// Looks up the cyclic year name for a one-based cyclic year number.
    pub fn get_name_for_cyclic(&self, field_length: FieldLength, cyclic: u8) -> (r: Result<
        String,
        GetNameForCyclicYearError,
    >)
        requires
            cyclic >= 1,
        ensures
            match r {
                Ok(s) => spec_get_name_for_cyclic(self@.year_names, field_length, cyclic) == Ok::<
                    Seq<char>,
                    GetNameForCyclicYearError,
                >(s@),
                Err(e) => spec_get_name_for_cyclic(self@.year_names, field_length, cyclic) == Err::<
                    Seq<char>,
                    GetNameForCyclicYearError,
                >(e),
            },
    {
        let year_name_length = match YearNameLength::from_field_length(field_length) {
            None => {
                return Err(GetNameForCyclicYearError::InvalidFieldLength);
            },
            Some(l) => l,
        };
        let table = match &self.year_names {
            NameSlot::Loaded(l, p) => {
                if *l == year_name_length {
                    p
                } else {
                    return Err(GetNameForCyclicYearError::NotLoaded);
                }
            },
            NameSlot::Empty => {
                return Err(GetNameForCyclicYearError::NotLoaded);
            },
        };
        match table {
            YearNames::Cyclic(v) => {
                let index: usize = (cyclic - 1) as usize;
                if index < v.len() {
                    Ok(v[index].clone())
                } else {
                    Err(GetNameForCyclicYearError::InvalidYearNumber { max: v.len() + 1 })
                }
            },
            _ => Err(GetNameForCyclicYearError::InvalidYearNumber { max: 0 }),
        }
    }

    /// Looks up the day-period name for an hour, applying the
    /// noon-and-midnight fallback chain.
    pub fn get_name_for_day_period(
        &self,
        field_symbol: DayPeriod,
        field_length: FieldLength,
        hour: u8,
        is_top_of_hour: bool,
    ) -> (r: Result<String, GetNameForDayPeriodError>)
        ensures
            match r {
                Ok(s) => spec_get_name_for_day_period(
                    self@.dayperiod_names,
                    field_symbol,
                    field_length,
                    hour,
                    is_top_of_hour,
                ) == Ok::<Seq<char>, GetNameForDayPeriodError>(s@),
                Err(e) => spec_get_name_for_day_period(
                    self@.dayperiod_names,
                    field_symbol,
                    field_length,
                    hour,
                    is_top_of_hour,
                ) == Err::<Seq<char>, GetNameForDayPeriodError>(e),
            },
    {
        let day_period_name_length = match DayPeriodNameLength::from_field(
            field_symbol,
            field_length,
        ) {
            None => {
                return Err(GetNameForDayPeriodError::InvalidFieldLength);
            },
            Some(l) => l,
        };
        let table = match &self.dayperiod_names {
            NameSlot::Loaded(l, p) => {
                if *l == day_period_name_length {
                    p
                } else {
                    return Err(GetNameForDayPeriodError::NotLoaded);
                }
            },
            NameSlot::Empty => {
                return Err(GetNameForDayPeriodError::NotLoaded);
            },
        };
        let choice: &Option<String> = if matches!(field_symbol, DayPeriod::NoonMidnight) && hour
            == 0 && is_top_of_hour {
            if table.midnight.is_some() {
                &table.midnight
            } else {
                &table.am
            }
        } else if matches!(field_symbol, DayPeriod::NoonMidnight) && hour == 12 && is_top_of_hour {
            if table.noon.is_some() {
                &table.noon
            } else {
                &table.pm
            }
        } else if hour < 12 {
            &table.am
        } else {
            &table.pm
        };
        match choice {
            Some(name) => Ok(name.clone()),
            None => Err(GetNameForDayPeriodError::NotLoaded),
        }
    }
}

/// The weekday-indexing law: for every one of the seven weekday values,
/// against a loaded seven-entry table of the requested width, the lookup
/// returns exactly the table entry at the weekday number modulo seven.
pub proof fn lemma_weekday_indexing(
    slot: SlotModel<WeekdayNameLength, WeekdayNamesModel>,
    field_symbol: Weekday,
    field_length: FieldLength,
    day: IsoWeekday,
)
    requires
        WeekdayNameLength::spec_from_field(field_symbol, field_length) matches Some(length) &&
            slot_get(slot, length) matches Some(table) && table.names.len() == 7,
    ensures
        spec_get_name_for_weekday(slot, field_symbol, field_length, day) matches Ok(name) && {
            let table = slot_get(
                slot,
                WeekdayNameLength::spec_from_field(field_symbol, field_length).unwrap(),
            ).unwrap();
            name == table.names[day.spec_number() as int % 7]
        },
{
}

/// The day-period fallback law: against a table that defines only am and
/// pm names (no noon, no midnight), the noon-midnight symbol resolves at
/// hour 0 and at hour 12, top of the hour, to exactly what the am-pm
/// symbol resolves to at the same hour.
pub proof fn lemma_day_period_fallback(
    slot: SlotModel<DayPeriodNameLength, DayPeriodNamesModel>,
    field_length: FieldLength,
    is_top_of_hour: bool,
)
    requires
        DayPeriodNameLength::spec_from_field(DayPeriod::NoonMidnight, field_length) matches Some(
            length,
        ) && slot_get(slot, length) matches Some(table) && table.noon is None &&
            table.midnight is None,
    ensures
        spec_get_name_for_day_period(
            slot,
            DayPeriod::NoonMidnight,
            field_length,
            0,
            is_top_of_hour,
        ) == spec_get_name_for_day_period(slot, DayPeriod::AmPm, field_length, 0, is_top_of_hour),
        spec_get_name_for_day_period(
            slot,
            DayPeriod::NoonMidnight,
            field_length,
            12,
            is_top_of_hour,
        ) == spec_get_name_for_day_period(slot, DayPeriod::AmPm, field_length, 12, is_top_of_hour),
{
}

/// The leap-month law: against a loaded leap-aware table of `n` regular
/// names followed by `n` leap names, the month code of regular month `k`
/// (`1 <= k <= n`) resolves to entry `k - 1`; the leap variant of month
/// `k` resolves to entry `n + k - 1`; and a leap variant beyond the
/// table's range is an invalid month code.
pub proof fn lemma_leap_month_lookup(
    slot: SlotModel<MonthNameLength, MonthNamesModel>,
    field_symbol: Month,
    field_length: FieldLength,
    code: Seq<char>,
    n: int,
)
    requires
        MonthNameLength::spec_from_field(field_symbol, field_length) matches Some(length) &&
            slot_get(slot, length) matches Some(table) && table matches MonthNamesModel::LeapLinear(
            v,
        ) && v.len() == 2 * n,
        spec_parse_month_code(code) is Some,
    ensures
        ({
            let v = slot_get(
                slot,
                MonthNameLength::spec_from_field(field_symbol, field_length).unwrap(),
            ).unwrap()->LeapLinear_0;
            let (k, is_leap) = spec_parse_month_code(code).unwrap();
            &&& (!is_leap && 1 <= k <= n ==> spec_get_name_for_month(
                slot,
                field_symbol,
                field_length,
                code,
            ) == Ok::<MonthPlaceholderModel, GetNameForMonthError>(
                MonthPlaceholderModel::PlainString(v[k - 1]),
            ))
            &&& (is_leap && 1 <= k <= n ==> spec_get_name_for_month(
                slot,
                field_symbol,
                field_length,
                code,
            ) == Ok::<MonthPlaceholderModel, GetNameForMonthError>(
                MonthPlaceholderModel::PlainString(v[n + k - 1]),
            ))
            &&& (is_leap && k > n ==> spec_get_name_for_month(
                slot,
                field_symbol,
                field_length,
                code,
            ) == Err::<MonthPlaceholderModel, GetNameForMonthError>(
                GetNameForMonthError::InvalidMonthCode,
            ))
        }),
{
}

} // verus!
