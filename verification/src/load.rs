//! The data loader and the pattern requirement scanner.
//!
//! A load builds the request key for a category, asks the backend, and
//! stores the payload in the category's slot, under the slot discipline of
//! [`crate::slots`]: a repeat request with the loaded descriptor succeeds
//! without touching the backend, a different descriptor is a conflict, and
//! a backend failure leaves the slot empty.
//!
//! The scanner walks a pattern's field items, issues the loads each one
//! requires, and finally loads the digit symbols once if any field renders
//! numerically.

use vstd::prelude::*;
use crate::backend::DataBackend;
use crate::data::{
    DataCategory, DataKey, DataKeyModel, DataPayload, DataPayloadModel, DecimalSymbolsModel,
    MonthNamesModel, MzGenericModel, MzPeriodsModel, MzSpecificModel, WeekdayNamesModel,
    DayPeriodNamesModel, YearNamesModel, ZoneEssentialsModel, ZoneExemplarsModel,
    ZoneLocationsModel,
};
use crate::errors::{DataError, PatternLoadError};
use crate::fields::{
    Day, DayPeriod, ErrorField, Field, FieldLength, FieldSymbol, Hour, Month, PatternItemModel,
    Second, TimeZone, Weekday, Year, DateTimePattern, PatternItem,
};
use crate::length::{
    DayPeriodNameLength, MonthNameLength, WeekdayNameLength, YearNameLength,
};
use crate::names::{DateTimeNames, NamesModel};
use crate::slots::{LoadOutcome, NameSlot, slot_after_load, slot_get, slot_load_outcome};

verus! {

/// Maps a load outcome to the loader's result, carrying the approximate
/// field of the category for error reporting.
pub open spec fn outcome_result(outcome: LoadOutcome, error_field: ErrorField) -> Result<
    (),
    PatternLoadError,
> {
    match outcome {
        LoadOutcome::Loaded => Ok(()),
        LoadOutcome::Conflict => Err(PatternLoadError::ConflictingField(error_field)),
        LoadOutcome::Failed(e) => Err(PatternLoadError::Data(e, error_field)),
    }
}

/// What the backend delivers for year names under a locale and width: the
/// table, or the fetch error, or malformed if the payload is of another
/// category.
pub open spec fn spec_fetch_year<B: DataBackend + ?Sized>(
    provider: &B,
    locale: Seq<char>,
    length: YearNameLength,
) -> Result<YearNamesModel, DataError> {
    match provider.spec_fetch(
        DataKeyModel {
            category: DataCategory::YearNames,
            attribute: Some(length.spec_to_attributes()),
            locale,
        },
    ) {
        Ok(DataPayloadModel::Year(m)) => Ok(m),
        Ok(_) => Err(DataError::Malformed),
        Err(e) => Err(e),
    }
}

/// What the backend delivers for month names under a locale and width.
pub open spec fn spec_fetch_month<B: DataBackend + ?Sized>(
    provider: &B,
    locale: Seq<char>,
    length: MonthNameLength,
) -> Result<MonthNamesModel, DataError> {
    match provider.spec_fetch(
        DataKeyModel {
            category: DataCategory::MonthNames,
            attribute: Some(length.spec_to_attributes()),
            locale,
        },
    ) {
        Ok(DataPayloadModel::Month(m)) => Ok(m),
        Ok(_) => Err(DataError::Malformed),
        Err(e) => Err(e),
    }
}

/// What the backend delivers for weekday names under a locale and width.
pub open spec fn spec_fetch_weekday<B: DataBackend + ?Sized>(
    provider: &B,
    locale: Seq<char>,
    length: WeekdayNameLength,
) -> Result<WeekdayNamesModel, DataError> {
    match provider.spec_fetch(
        DataKeyModel {
            category: DataCategory::WeekdayNames,
            attribute: Some(length.spec_to_attributes()),
            locale,
        },
    ) {
        Ok(DataPayloadModel::Weekday(m)) => Ok(m),
        Ok(_) => Err(DataError::Malformed),
        Err(e) => Err(e),
    }
}

/// What the backend delivers for day-period names under a locale and width.
pub open spec fn spec_fetch_day_period<B: DataBackend + ?Sized>(
    provider: &B,
    locale: Seq<char>,
    length: DayPeriodNameLength,
) -> Result<DayPeriodNamesModel, DataError> {
    match provider.spec_fetch(
        DataKeyModel {
            category: DataCategory::DayPeriodNames,
            attribute: Some(length.spec_to_attributes()),
            locale,
        },
    ) {
        Ok(DataPayloadModel::DayPeriod(m)) => Ok(m),
        Ok(_) => Err(DataError::Malformed),
        Err(e) => Err(e),
    }
}

/// What the backend delivers for a zone category without an attribute.
pub open spec fn spec_fetch_zone_essentials<B: DataBackend + ?Sized>(
    provider: &B,
    locale: Seq<char>,
) -> Result<ZoneEssentialsModel, DataError> {
    match provider.spec_fetch(
        DataKeyModel { category: DataCategory::ZoneEssentials, attribute: None, locale },
    ) {
        Ok(DataPayloadModel::ZoneEssentials(m)) => Ok(m),
        Ok(_) => Err(DataError::Malformed),
        Err(e) => Err(e),
    }
}

/// What the backend delivers for location names, root or localized.
pub open spec fn spec_fetch_locations<B: DataBackend + ?Sized>(
    provider: &B,
    locale: Seq<char>,
    category: DataCategory,
) -> Result<ZoneLocationsModel, DataError> {
    match provider.spec_fetch(DataKeyModel { category, attribute: None, locale }) {
        Ok(DataPayloadModel::ZoneLocations(m)) => Ok(m),
        Ok(_) => Err(DataError::Malformed),
        Err(e) => Err(e),
    }
}

/// What the backend delivers for exemplar cities, root or localized.
pub open spec fn spec_fetch_exemplars<B: DataBackend + ?Sized>(
    provider: &B,
    locale: Seq<char>,
    category: DataCategory,
) -> Result<ZoneExemplarsModel, DataError> {
    match provider.spec_fetch(DataKeyModel { category, attribute: None, locale }) {
        Ok(DataPayloadModel::ZoneExemplars(m)) => Ok(m),
        Ok(_) => Err(DataError::Malformed),
        Err(e) => Err(e),
    }
}

/// What the backend delivers for generic non-location names.
pub open spec fn spec_fetch_mz_generic<B: DataBackend + ?Sized>(
    provider: &B,
    locale: Seq<char>,
    category: DataCategory,
) -> Result<MzGenericModel, DataError> {
    match provider.spec_fetch(DataKeyModel { category, attribute: None, locale }) {
        Ok(DataPayloadModel::MzGeneric(m)) => Ok(m),
        Ok(_) => Err(DataError::Malformed),
        Err(e) => Err(e),
    }
}

/// What the backend delivers for specific non-location names.
pub open spec fn spec_fetch_mz_specific<B: DataBackend + ?Sized>(
    provider: &B,
    locale: Seq<char>,
    category: DataCategory,
) -> Result<MzSpecificModel, DataError> {
    match provider.spec_fetch(DataKeyModel { category, attribute: None, locale }) {
        Ok(DataPayloadModel::MzSpecific(m)) => Ok(m),
        Ok(_) => Err(DataError::Malformed),
        Err(e) => Err(e),
    }
}

/// What the backend delivers for the metazone lookup.  The table is
/// locale-independent, so it is filed under the empty locale.
pub open spec fn spec_fetch_mz_periods<B: DataBackend + ?Sized>(provider: &B) -> Result<
    MzPeriodsModel,
    DataError,
> {
    match provider.spec_fetch(
        DataKeyModel {
            category: DataCategory::MzPeriods,
            attribute: None,
            locale: Seq::empty(),
        },
    ) {
        Ok(DataPayloadModel::MzPeriods(m)) => Ok(m),
        Ok(_) => Err(DataError::Malformed),
        Err(e) => Err(e),
    }
}

/// What the backend delivers for digit symbols: the symbols, malformed if
/// the digit table does not have exactly ten entries.
pub open spec fn spec_fetch_decimal<B: DataBackend + ?Sized>(
    provider: &B,
    locale: Seq<char>,
) -> Result<DecimalSymbolsModel, DataError> {
    match provider.spec_fetch(
        DataKeyModel { category: DataCategory::DecimalSymbols, attribute: None, locale },
    ) {
        Ok(DataPayloadModel::Decimal(d)) => if d.digits.len() == 10 {
            Ok(d)
        } else {
            Err(DataError::Malformed)
        },
        Ok(_) => Err(DataError::Malformed),
        Err(e) => Err(e),
    }
}

impl NamesModel {
    /// The digit table, if loaded, has exactly ten digits.
    pub open spec fn wf(self) -> bool {
        self.fixed_decimal_formatter matches Some(d) ==> d.digits.len() == 10
    }
}

/// The container and result after one year-names load request.
pub open spec fn step_year<B: DataBackend + ?Sized>(
    provider: &B,
    locale: Seq<char>,
    m: NamesModel,
    length: YearNameLength,
    error_field: ErrorField,
) -> (NamesModel, Result<(), PatternLoadError>) {
    let fetched = spec_fetch_year(provider, locale, length);
    (
        (NamesModel { year_names: slot_after_load(m.year_names, length, fetched), ..m }),
        outcome_result(slot_load_outcome(m.year_names, length, fetched), error_field),
    )
}

/// The container and result after one month-names load request.
pub open spec fn step_month<B: DataBackend + ?Sized>(
    provider: &B,
    locale: Seq<char>,
    m: NamesModel,
    length: MonthNameLength,
    error_field: ErrorField,
) -> (NamesModel, Result<(), PatternLoadError>) {
    let fetched = spec_fetch_month(provider, locale, length);
    (
        (NamesModel { month_names: slot_after_load(m.month_names, length, fetched), ..m }),
        outcome_result(slot_load_outcome(m.month_names, length, fetched), error_field),
    )
}

/// The container and result after one weekday-names load request.
pub open spec fn step_weekday<B: DataBackend + ?Sized>(
    provider: &B,
    locale: Seq<char>,
    m: NamesModel,
    length: WeekdayNameLength,
    error_field: ErrorField,
) -> (NamesModel, Result<(), PatternLoadError>) {
    let fetched = spec_fetch_weekday(provider, locale, length);
    (
        (NamesModel { weekday_names: slot_after_load(m.weekday_names, length, fetched), ..m }),
        outcome_result(slot_load_outcome(m.weekday_names, length, fetched), error_field),
    )
}

/// The container and result after one day-period-names load request.
pub open spec fn step_day_period<B: DataBackend + ?Sized>(
    provider: &B,
    locale: Seq<char>,
    m: NamesModel,
    length: DayPeriodNameLength,
    error_field: ErrorField,
) -> (NamesModel, Result<(), PatternLoadError>) {
    let fetched = spec_fetch_day_period(provider, locale, length);
    (
        (NamesModel { dayperiod_names: slot_after_load(m.dayperiod_names, length, fetched), ..m }),
        outcome_result(slot_load_outcome(m.dayperiod_names, length, fetched), error_field),
    )
}

/// The container and result after a zone-essentials load request.
pub open spec fn step_zone_essentials<B: DataBackend + ?Sized>(
    provider: &B,
    locale: Seq<char>,
    m: NamesModel,
) -> (NamesModel, Result<(), PatternLoadError>) {
    let fetched = spec_fetch_zone_essentials(provider, locale);
    let error_field = ErrorField(
        Field {
            symbol: FieldSymbol::TimeZone(TimeZone::LocalizedOffset),
            length: FieldLength::Four,
        },
    );
    (
        (NamesModel { zone_essentials: slot_after_load(m.zone_essentials, (), fetched), ..m }),
        outcome_result(slot_load_outcome(m.zone_essentials, (), fetched), error_field),
    )
}

/// The container and result after a location-names load request: the
/// root table first, and only when it is in place the localized table.
pub open spec fn step_locations<B: DataBackend + ?Sized>(
    provider: &B,
    locale: Seq<char>,
    m: NamesModel,
) -> (NamesModel, Result<(), PatternLoadError>) {
    let root_fetch = spec_fetch_locations(provider, locale, DataCategory::ZoneLocationsRoot);
    let local_fetch = spec_fetch_locations(provider, locale, DataCategory::ZoneLocations);
    let error_field = ErrorField(
        Field { symbol: FieldSymbol::TimeZone(TimeZone::Location), length: FieldLength::Four },
    );
    let root_outcome = slot_load_outcome(m.locations_root, (), root_fetch);
    let after_root = NamesModel {
        locations_root: slot_after_load(m.locations_root, (), root_fetch),
        ..m
    };
    if !(root_outcome is Loaded) {
        (after_root, outcome_result(root_outcome, error_field))
    } else {
        (
            (NamesModel {
                locations: slot_after_load(m.locations, (), local_fetch),
                ..after_root
            }),
            outcome_result(slot_load_outcome(m.locations, (), local_fetch), error_field),
        )
    }
}

/// The container and result after an exemplar-cities load request: the
/// root table first, and only when it is in place the localized table.
pub open spec fn step_exemplars<B: DataBackend + ?Sized>(
    provider: &B,
    locale: Seq<char>,
    m: NamesModel,
) -> (NamesModel, Result<(), PatternLoadError>) {
    let root_fetch = spec_fetch_exemplars(provider, locale, DataCategory::ZoneExemplarsRoot);
    let local_fetch = spec_fetch_exemplars(provider, locale, DataCategory::ZoneExemplars);
    let error_field = ErrorField(
        Field { symbol: FieldSymbol::TimeZone(TimeZone::Location), length: FieldLength::Three },
    );
    let root_outcome = slot_load_outcome(m.exemplars_root, (), root_fetch);
    let after_root = NamesModel {
        exemplars_root: slot_after_load(m.exemplars_root, (), root_fetch),
        ..m
    };
    if !(root_outcome is Loaded) {
        (after_root, outcome_result(root_outcome, error_field))
    } else {
        (
            (NamesModel {
                exemplars: slot_after_load(m.exemplars, (), local_fetch),
                ..after_root
            }),
            outcome_result(slot_load_outcome(m.exemplars, (), local_fetch), error_field),
        )
    }
}

/// The container and result after a metazone-lookup load request.
pub open spec fn step_mz_periods<B: DataBackend + ?Sized>(
    provider: &B,
    m: NamesModel,
    error_field: ErrorField,
) -> (NamesModel, Result<(), PatternLoadError>) {
    let fetched = spec_fetch_mz_periods(provider);
    (
        (NamesModel { mz_periods: slot_after_load(m.mz_periods, (), fetched), ..m }),
        outcome_result(slot_load_outcome(m.mz_periods, (), fetched), error_field),
    )
}

/// The container and result after a generic-long-names load request,
/// the metazone lookup loaded after the names.
pub open spec fn step_generic_long<B: DataBackend + ?Sized>(
    provider: &B,
    locale: Seq<char>,
    m: NamesModel,
) -> (NamesModel, Result<(), PatternLoadError>) {
    let name_fetch = spec_fetch_mz_generic(provider, locale, DataCategory::MzGenericLong);
    let error_field = ErrorField(
        Field {
            symbol: FieldSymbol::TimeZone(TimeZone::GenericNonLocation),
            length: FieldLength::Four,
        },
    );
    let name_outcome = slot_load_outcome(m.mz_generic_long, (), name_fetch);
    let after_name = NamesModel {
        mz_generic_long: slot_after_load(m.mz_generic_long, (), name_fetch),
        ..m
    };
    if !(name_outcome is Loaded) {
        (after_name, outcome_result(name_outcome, error_field))
    } else {
        step_mz_periods(provider, after_name, error_field)
    }
}

/// The container and result after a generic-short-names load request.
pub open spec fn step_generic_short<B: DataBackend + ?Sized>(
    provider: &B,
    locale: Seq<char>,
    m: NamesModel,
) -> (NamesModel, Result<(), PatternLoadError>) {
    let name_fetch = spec_fetch_mz_generic(provider, locale, DataCategory::MzGenericShort);
    let error_field = ErrorField(
        Field {
            symbol: FieldSymbol::TimeZone(TimeZone::GenericNonLocation),
            length: FieldLength::One,
        },
    );
    let name_outcome = slot_load_outcome(m.mz_generic_short, (), name_fetch);
    let after_name = NamesModel {
        mz_generic_short: slot_after_load(m.mz_generic_short, (), name_fetch),
        ..m
    };
    if !(name_outcome is Loaded) {
        (after_name, outcome_result(name_outcome, error_field))
    } else {
        step_mz_periods(provider, after_name, error_field)
    }
}

/// The container and result after a specific-long-names load request.
pub open spec fn step_specific_long<B: DataBackend + ?Sized>(
    provider: &B,
    locale: Seq<char>,
    m: NamesModel,
) -> (NamesModel, Result<(), PatternLoadError>) {
    let name_fetch = spec_fetch_mz_specific(provider, locale, DataCategory::MzSpecificLong);
    let error_field = ErrorField(
        Field {
            symbol: FieldSymbol::TimeZone(TimeZone::SpecificNonLocation),
            length: FieldLength::Four,
        },
    );
    let name_outcome = slot_load_outcome(m.mz_specific_long, (), name_fetch);
    let after_name = NamesModel {
        mz_specific_long: slot_after_load(m.mz_specific_long, (), name_fetch),
        ..m
    };
    if !(name_outcome is Loaded) {
        (after_name, outcome_result(name_outcome, error_field))
    } else {
        step_mz_periods(provider, after_name, error_field)
    }
}

/// The container and result after a specific-short-names load request.
pub open spec fn step_specific_short<B: DataBackend + ?Sized>(
    provider: &B,
    locale: Seq<char>,
    m: NamesModel,
) -> (NamesModel, Result<(), PatternLoadError>) {
    let name_fetch = spec_fetch_mz_specific(provider, locale, DataCategory::MzSpecificShort);
    let error_field = ErrorField(
        Field {
            symbol: FieldSymbol::TimeZone(TimeZone::SpecificNonLocation),
            length: FieldLength::One,
        },
    );
    let name_outcome = slot_load_outcome(m.mz_specific_short, (), name_fetch);
    let after_name = NamesModel {
        mz_specific_short: slot_after_load(m.mz_specific_short, (), name_fetch),
        ..m
    };
    if !(name_outcome is Loaded) {
        (after_name, outcome_result(name_outcome, error_field))
    } else {
        step_mz_periods(provider, after_name, error_field)
    }
}

/// The container and result after a digit-symbols load request: a no-op
/// success when they are already loaded, otherwise exactly what the
/// backend delivers.
pub open spec fn step_decimal<B: DataBackend + ?Sized>(
    provider: &B,
    locale: Seq<char>,
    m: NamesModel,
) -> (NamesModel, Result<(), DataError>) {
    if m.fixed_decimal_formatter is Some {
        (m, Ok(()))
    } else {
        match spec_fetch_decimal(provider, locale) {
            Ok(d) => ((NamesModel { fixed_decimal_formatter: Some(d), ..m }), Ok(())),
            Err(e) => (m, Err(e)),
        }
    }
}

/// Nothing already loaded is lost or changed between two container
/// states: every loaded slot keeps its descriptor and payload, and loaded
/// digit symbols stay.
pub open spec fn names_monotonic(a: NamesModel, b: NamesModel) -> bool {
    &&& (a.year_names is Loaded ==> b.year_names == a.year_names)
    &&& (a.month_names is Loaded ==> b.month_names == a.month_names)
    &&& (a.weekday_names is Loaded ==> b.weekday_names == a.weekday_names)
    &&& (a.dayperiod_names is Loaded ==> b.dayperiod_names == a.dayperiod_names)
    &&& (a.zone_essentials is Loaded ==> b.zone_essentials == a.zone_essentials)
    &&& (a.locations_root is Loaded ==> b.locations_root == a.locations_root)
    &&& (a.locations is Loaded ==> b.locations == a.locations)
    &&& (a.exemplars_root is Loaded ==> b.exemplars_root == a.exemplars_root)
    &&& (a.exemplars is Loaded ==> b.exemplars == a.exemplars)
    &&& (a.mz_generic_long is Loaded ==> b.mz_generic_long == a.mz_generic_long)
    &&& (a.mz_generic_short is Loaded ==> b.mz_generic_short == a.mz_generic_short)
    &&& (a.mz_specific_long is Loaded ==> b.mz_specific_long == a.mz_specific_long)
    &&& (a.mz_specific_short is Loaded ==> b.mz_specific_short == a.mz_specific_short)
    &&& (a.mz_periods is Loaded ==> b.mz_periods == a.mz_periods)
    &&& (a.fixed_decimal_formatter is Some ==> b.fixed_decimal_formatter
        == a.fixed_decimal_formatter)
}

impl DateTimeNames {
    /// Loads year (era or cyclic) names for the given width.
    pub fn load_year_names<B: DataBackend + ?Sized>(
        &mut self,
        provider: &B,
        locale: &String,
        length: YearNameLength,
        error_field: ErrorField,
    ) -> (r: Result<(), PatternLoadError>)
        ensures
            final(self)@ == (NamesModel {
                year_names: slot_after_load(
                    old(self)@.year_names,
                    length,
                    spec_fetch_year(provider, locale@, length),
                ),
                ..old(self)@
            }),
            r == outcome_result(
                slot_load_outcome(
                    old(self)@.year_names,
                    length,
                    spec_fetch_year(provider, locale@, length),
                ),
                error_field,
            ),
    {
        match &self.year_names {
            NameSlot::Loaded(l, _) => {
                if *l == length {
                    return Ok(());
                } else {
                    return Err(PatternLoadError::ConflictingField(error_field));
                }
            },
            NameSlot::Empty => {},
        }
        let key = DataKey {
            category: DataCategory::YearNames,
            attribute: Some(length.to_attributes()),
            locale: locale.clone(),
        };
        match provider.fetch(&key) {
            Ok(DataPayload::Year(m)) => {
                self.year_names = NameSlot::Loaded(length, m);
                Ok(())
            },
            Ok(_) => Err(PatternLoadError::Data(DataError::Malformed, error_field)),
            Err(e) => Err(PatternLoadError::Data(e, error_field)),
        }
    }

    /// Loads month names for the given width and context.
    pub fn load_month_names<B: DataBackend + ?Sized>(
        &mut self,
        provider: &B,
        locale: &String,
        length: MonthNameLength,
        error_field: ErrorField,
    ) -> (r: Result<(), PatternLoadError>)
        ensures
            final(self)@ == (NamesModel {
                month_names: slot_after_load(
                    old(self)@.month_names,
                    length,
                    spec_fetch_month(provider, locale@, length),
                ),
                ..old(self)@
            }),
            r == outcome_result(
                slot_load_outcome(
                    old(self)@.month_names,
                    length,
                    spec_fetch_month(provider, locale@, length),
                ),
                error_field,
            ),
    {
        match &self.month_names {
            NameSlot::Loaded(l, _) => {
                if *l == length {
                    return Ok(());
                } else {
                    return Err(PatternLoadError::ConflictingField(error_field));
                }
            },
            NameSlot::Empty => {},
        }
        let key = DataKey {
            category: DataCategory::MonthNames,
            attribute: Some(length.to_attributes()),
            locale: locale.clone(),
        };
        match provider.fetch(&key) {
            Ok(DataPayload::Month(m)) => {
                self.month_names = NameSlot::Loaded(length, m);
                Ok(())
            },
            Ok(_) => Err(PatternLoadError::Data(DataError::Malformed, error_field)),
            Err(e) => Err(PatternLoadError::Data(e, error_field)),
        }
    }

    /// Loads weekday names for the given width and context.
    pub fn load_weekday_names<B: DataBackend + ?Sized>(
        &mut self,
        provider: &B,
        locale: &String,
        length: WeekdayNameLength,
        error_field: ErrorField,
    ) -> (r: Result<(), PatternLoadError>)
        ensures
            final(self)@ == (NamesModel {
                weekday_names: slot_after_load(
                    old(self)@.weekday_names,
                    length,
                    spec_fetch_weekday(provider, locale@, length),
                ),
                ..old(self)@
            }),
            r == outcome_result(
                slot_load_outcome(
                    old(self)@.weekday_names,
                    length,
                    spec_fetch_weekday(provider, locale@, length),
                ),
                error_field,
            ),
    {
        match &self.weekday_names {
            NameSlot::Loaded(l, _) => {
                if *l == length {
                    return Ok(());
                } else {
                    return Err(PatternLoadError::ConflictingField(error_field));
                }
            },
            NameSlot::Empty => {},
        }
        let key = DataKey {
            category: DataCategory::WeekdayNames,
            attribute: Some(length.to_attributes()),
            locale: locale.clone(),
        };
        match provider.fetch(&key) {
            Ok(DataPayload::Weekday(m)) => {
                self.weekday_names = NameSlot::Loaded(length, m);
                Ok(())
            },
            Ok(_) => Err(PatternLoadError::Data(DataError::Malformed, error_field)),
            Err(e) => Err(PatternLoadError::Data(e, error_field)),
        }
    }

    /// Loads day-period names for the given width.
    pub fn load_day_period_names<B: DataBackend + ?Sized>(
        &mut self,
        provider: &B,
        locale: &String,
        length: DayPeriodNameLength,
        error_field: ErrorField,
    ) -> (r: Result<(), PatternLoadError>)
        ensures
            final(self)@ == (NamesModel {
                dayperiod_names: slot_after_load(
                    old(self)@.dayperiod_names,
                    length,
                    spec_fetch_day_period(provider, locale@, length),
                ),
                ..old(self)@
            }),
            r == outcome_result(
                slot_load_outcome(
                    old(self)@.dayperiod_names,
                    length,
                    spec_fetch_day_period(provider, locale@, length),
                ),
                error_field,
            ),
    {
        match &self.dayperiod_names {
            NameSlot::Loaded(l, _) => {
                if *l == length {
                    return Ok(());
                } else {
                    return Err(PatternLoadError::ConflictingField(error_field));
                }
            },
            NameSlot::Empty => {},
        }
        let key = DataKey {
            category: DataCategory::DayPeriodNames,
            attribute: Some(length.to_attributes()),
            locale: locale.clone(),
        };
        match provider.fetch(&key) {
            Ok(DataPayload::DayPeriod(m)) => {
                self.dayperiod_names = NameSlot::Loaded(length, m);
                Ok(())
            },
            Ok(_) => Err(PatternLoadError::Data(DataError::Malformed, error_field)),
            Err(e) => Err(PatternLoadError::Data(e, error_field)),
        }
    }

    /// Loads the shared essential patterns for time-zone formatting.
    pub fn load_time_zone_essentials<B: DataBackend + ?Sized>(
        &mut self,
        provider: &B,
        locale: &String,
    ) -> (r: Result<(), PatternLoadError>)
        ensures
            final(self)@ == (NamesModel {
                zone_essentials: slot_after_load(
                    old(self)@.zone_essentials,
                    (),
                    spec_fetch_zone_essentials(provider, locale@),
                ),
                ..old(self)@
            }),
            r == outcome_result(
                slot_load_outcome(
                    old(self)@.zone_essentials,
                    (),
                    spec_fetch_zone_essentials(provider, locale@),
                ),
                (ErrorField(
                    Field {
                        symbol: FieldSymbol::TimeZone(TimeZone::LocalizedOffset),
                        length: FieldLength::Four,
                    },
                )),
            ),
    {
        let error_field = ErrorField(
            Field {
                symbol: FieldSymbol::TimeZone(TimeZone::LocalizedOffset),
                length: FieldLength::Four,
            },
        );
        match &self.zone_essentials {
            NameSlot::Loaded(_, _) => {
                return Ok(());
            },
            NameSlot::Empty => {},
        }
        let key = DataKey {
            category: DataCategory::ZoneEssentials,
            attribute: None,
            locale: locale.clone(),
        };
        match provider.fetch(&key) {
            Ok(DataPayload::ZoneEssentials(m)) => {
                self.zone_essentials = NameSlot::Loaded((), m);
                Ok(())
            },
            Ok(_) => Err(PatternLoadError::Data(DataError::Malformed, error_field)),
            Err(e) => Err(PatternLoadError::Data(e, error_field)),
        }
    }

    /// Loads location names, the root table first and the localized table
    /// after it; a failure on the root table leaves the localized slot
    /// untouched.
    pub fn load_time_zone_location_names<B: DataBackend + ?Sized>(
        &mut self,
        provider: &B,
        locale: &String,
    ) -> (r: Result<(), PatternLoadError>)
        ensures
            ({
                let root_fetch = spec_fetch_locations(
                    provider,
                    locale@,
                    DataCategory::ZoneLocationsRoot,
                );
                let local_fetch = spec_fetch_locations(
                    provider,
                    locale@,
                    DataCategory::ZoneLocations,
                );
                let error_field = ErrorField(
                    Field {
                        symbol: FieldSymbol::TimeZone(TimeZone::Location),
                        length: FieldLength::Four,
                    },
                );
                let root_outcome = slot_load_outcome(old(self)@.locations_root, (), root_fetch);
                &&& final(self)@.locations_root == slot_after_load(
                    old(self)@.locations_root,
                    (),
                    root_fetch,
                )
                &&& (root_outcome is Loaded ==> final(self)@ == (NamesModel {
                    locations_root: slot_after_load(old(self)@.locations_root, (), root_fetch),
                    locations: slot_after_load(old(self)@.locations, (), local_fetch),
                    ..old(self)@
                }) && r == outcome_result(
                    slot_load_outcome(old(self)@.locations, (), local_fetch),
                    error_field,
                ))
                &&& (!(root_outcome is Loaded) ==> final(self)@ == (NamesModel {
                    locations_root: slot_after_load(old(self)@.locations_root, (), root_fetch),
                    ..old(self)@
                }) && r == outcome_result(root_outcome, error_field))
            }),
    {
        let error_field = ErrorField(
            Field { symbol: FieldSymbol::TimeZone(TimeZone::Location), length: FieldLength::Four },
        );
        let mut root_loaded = false;
        match &self.locations_root {
            NameSlot::Loaded(_, _) => {
                root_loaded = true;
            },
            NameSlot::Empty => {},
        }
        if !root_loaded {
            let key = DataKey {
                category: DataCategory::ZoneLocationsRoot,
                attribute: None,
                locale: locale.clone(),
            };
            match provider.fetch(&key) {
                Ok(DataPayload::ZoneLocations(m)) => {
                    self.locations_root = NameSlot::Loaded((), m);
                },
                Ok(_) => {
                    return Err(PatternLoadError::Data(DataError::Malformed, error_field));
                },
                Err(e) => {
                    return Err(PatternLoadError::Data(e, error_field));
                },
            }
        }
        match &self.locations {
            NameSlot::Loaded(_, _) => {
                return Ok(());
            },
            NameSlot::Empty => {},
        }
        let key = DataKey {
            category: DataCategory::ZoneLocations,
            attribute: None,
            locale: locale.clone(),
        };
        match provider.fetch(&key) {
            Ok(DataPayload::ZoneLocations(m)) => {
                self.locations = NameSlot::Loaded((), m);
                Ok(())
            },
            Ok(_) => Err(PatternLoadError::Data(DataError::Malformed, error_field)),
            Err(e) => Err(PatternLoadError::Data(e, error_field)),
        }
    }

    /// Loads exemplar-city names, the root table first and the localized
    /// table after it.
    pub fn load_time_zone_exemplar_cities_names<B: DataBackend + ?Sized>(
        &mut self,
        provider: &B,
        locale: &String,
    ) -> (r: Result<(), PatternLoadError>)
        ensures
            ({
                let root_fetch = spec_fetch_exemplars(
                    provider,
                    locale@,
                    DataCategory::ZoneExemplarsRoot,
                );
                let local_fetch = spec_fetch_exemplars(
                    provider,
                    locale@,
                    DataCategory::ZoneExemplars,
                );
                let error_field = ErrorField(
                    Field {
                        symbol: FieldSymbol::TimeZone(TimeZone::Location),
                        length: FieldLength::Three,
                    },
                );
                let root_outcome = slot_load_outcome(old(self)@.exemplars_root, (), root_fetch);
                &&& (root_outcome is Loaded ==> final(self)@ == (NamesModel {
                    exemplars_root: slot_after_load(old(self)@.exemplars_root, (), root_fetch),
                    exemplars: slot_after_load(old(self)@.exemplars, (), local_fetch),
                    ..old(self)@
                }) && r == outcome_result(
                    slot_load_outcome(old(self)@.exemplars, (), local_fetch),
                    error_field,
                ))
                &&& (!(root_outcome is Loaded) ==> final(self)@ == (NamesModel {
                    exemplars_root: slot_after_load(old(self)@.exemplars_root, (), root_fetch),
                    ..old(self)@
                }) && r == outcome_result(root_outcome, error_field))
            }),
    {
        let error_field = ErrorField(
            Field { symbol: FieldSymbol::TimeZone(TimeZone::Location), length: FieldLength::Three },
        );
        let mut root_loaded = false;
        match &self.exemplars_root {
            NameSlot::Loaded(_, _) => {
                root_loaded = true;
            },
            NameSlot::Empty => {},
        }
        if !root_loaded {
            let key = DataKey {
                category: DataCategory::ZoneExemplarsRoot,
                attribute: None,
                locale: locale.clone(),
            };
            match provider.fetch(&key) {
                Ok(DataPayload::ZoneExemplars(m)) => {
                    self.exemplars_root = NameSlot::Loaded((), m);
                },
                Ok(_) => {
                    return Err(PatternLoadError::Data(DataError::Malformed, error_field));
                },
                Err(e) => {
                    return Err(PatternLoadError::Data(e, error_field));
                },
            }
        }
        match &self.exemplars {
            NameSlot::Loaded(_, _) => {
                return Ok(());
            },
            NameSlot::Empty => {},
        }
        let key = DataKey {
            category: DataCategory::ZoneExemplars,
            attribute: None,
            locale: locale.clone(),
        };
        match provider.fetch(&key) {
            Ok(DataPayload::ZoneExemplars(m)) => {
                self.exemplars = NameSlot::Loaded((), m);
                Ok(())
            },
            Ok(_) => Err(PatternLoadError::Data(DataError::Malformed, error_field)),
            Err(e) => Err(PatternLoadError::Data(e, error_field)),
        }
    }

    /// Loads the metazone lookup table.
    pub fn load_mz_periods<B: DataBackend + ?Sized>(
        &mut self,
        provider: &B,
        error_field: ErrorField,
    ) -> (r: Result<(), PatternLoadError>)
        ensures
            final(self)@ == (NamesModel {
                mz_periods: slot_after_load(
                    old(self)@.mz_periods,
                    (),
                    spec_fetch_mz_periods(provider),
                ),
                ..old(self)@
            }),
            r == outcome_result(
                slot_load_outcome(old(self)@.mz_periods, (), spec_fetch_mz_periods(provider)),
                error_field,
            ),
    {
        match &self.mz_periods {
            NameSlot::Loaded(_, _) => {
                return Ok(());
            },
            NameSlot::Empty => {},
        }
        let key = DataKey {
            category: DataCategory::MzPeriods,
            attribute: None,
            locale: String::new(),
        };
        match provider.fetch(&key) {
            Ok(DataPayload::MzPeriods(m)) => {
                self.mz_periods = NameSlot::Loaded((), m);
                Ok(())
            },
            Ok(_) => Err(PatternLoadError::Data(DataError::Malformed, error_field)),
            Err(e) => Err(PatternLoadError::Data(e, error_field)),
        }
    }

    /// Loads generic non-location long names, and the metazone lookup they
    /// are read through.
    pub fn load_time_zone_generic_long_names<B: DataBackend + ?Sized>(
        &mut self,
        provider: &B,
        locale: &String,
    ) -> (r: Result<(), PatternLoadError>)
        ensures
            ({
                let name_fetch = spec_fetch_mz_generic(
                    provider,
                    locale@,
                    DataCategory::MzGenericLong,
                );
                let error_field = ErrorField(
                    Field {
                        symbol: FieldSymbol::TimeZone(TimeZone::GenericNonLocation),
                        length: FieldLength::Four,
                    },
                );
                let name_outcome = slot_load_outcome(old(self)@.mz_generic_long, (), name_fetch);
                &&& (name_outcome is Loaded ==> final(self)@ == (NamesModel {
                    mz_generic_long: slot_after_load(old(self)@.mz_generic_long, (), name_fetch),
                    mz_periods: slot_after_load(
                        old(self)@.mz_periods,
                        (),
                        spec_fetch_mz_periods(provider),
                    ),
                    ..old(self)@
                }) && r == outcome_result(
                    slot_load_outcome(old(self)@.mz_periods, (), spec_fetch_mz_periods(provider)),
                    error_field,
                ))
                &&& (!(name_outcome is Loaded) ==> final(self)@ == (NamesModel {
                    mz_generic_long: slot_after_load(old(self)@.mz_generic_long, (), name_fetch),
                    ..old(self)@
                }) && r == outcome_result(name_outcome, error_field))
            }),
    {
        let error_field = ErrorField(
            Field {
                symbol: FieldSymbol::TimeZone(TimeZone::GenericNonLocation),
                length: FieldLength::Four,
            },
        );
        let mut name_loaded = false;
        match &self.mz_generic_long {
            NameSlot::Loaded(_, _) => {
                name_loaded = true;
            },
            NameSlot::Empty => {},
        }
        if !name_loaded {
            let key = DataKey {
                category: DataCategory::MzGenericLong,
                attribute: None,
                locale: locale.clone(),
            };
            match provider.fetch(&key) {
                Ok(DataPayload::MzGeneric(m)) => {
                    self.mz_generic_long = NameSlot::Loaded((), m);
                },
                Ok(_) => {
                    return Err(PatternLoadError::Data(DataError::Malformed, error_field));
                },
                Err(e) => {
                    return Err(PatternLoadError::Data(e, error_field));
                },
            }
        }
        self.load_mz_periods(provider, error_field)
    }

    /// Loads generic non-location short names, and the metazone lookup.
    pub fn load_time_zone_generic_short_names<B: DataBackend + ?Sized>(
        &mut self,
        provider: &B,
        locale: &String,
    ) -> (r: Result<(), PatternLoadError>)
        ensures
            ({
                let name_fetch = spec_fetch_mz_generic(
                    provider,
                    locale@,
                    DataCategory::MzGenericShort,
                );
                let error_field = ErrorField(
                    Field {
                        symbol: FieldSymbol::TimeZone(TimeZone::GenericNonLocation),
                        length: FieldLength::One,
                    },
                );
                let name_outcome = slot_load_outcome(old(self)@.mz_generic_short, (), name_fetch);
                &&& (name_outcome is Loaded ==> final(self)@ == (NamesModel {
                    mz_generic_short: slot_after_load(old(self)@.mz_generic_short, (), name_fetch),
                    mz_periods: slot_after_load(
                        old(self)@.mz_periods,
                        (),
                        spec_fetch_mz_periods(provider),
                    ),
                    ..old(self)@
                }) && r == outcome_result(
                    slot_load_outcome(old(self)@.mz_periods, (), spec_fetch_mz_periods(provider)),
                    error_field,
                ))
                &&& (!(name_outcome is Loaded) ==> final(self)@ == (NamesModel {
                    mz_generic_short: slot_after_load(old(self)@.mz_generic_short, (), name_fetch),
                    ..old(self)@
                }) && r == outcome_result(name_outcome, error_field))
            }),
    {
        let error_field = ErrorField(
            Field {
                symbol: FieldSymbol::TimeZone(TimeZone::GenericNonLocation),
                length: FieldLength::One,
            },
        );
        let mut name_loaded = false;
        match &self.mz_generic_short {
            NameSlot::Loaded(_, _) => {
                name_loaded = true;
            },
            NameSlot::Empty => {},
        }
        if !name_loaded {
            let key = DataKey {
                category: DataCategory::MzGenericShort,
                attribute: None,
                locale: locale.clone(),
            };
            match provider.fetch(&key) {
                Ok(DataPayload::MzGeneric(m)) => {
                    self.mz_generic_short = NameSlot::Loaded((), m);
                },
                Ok(_) => {
                    return Err(PatternLoadError::Data(DataError::Malformed, error_field));
                },
                Err(e) => {
                    return Err(PatternLoadError::Data(e, error_field));
                },
            }
        }
        self.load_mz_periods(provider, error_field)
    }

    /// Loads specific non-location long names, and the metazone lookup.
    pub fn load_time_zone_specific_long_names<B: DataBackend + ?Sized>(
        &mut self,
        provider: &B,
        locale: &String,
    ) -> (r: Result<(), PatternLoadError>)
        ensures
            ({
                let name_fetch = spec_fetch_mz_specific(
                    provider,
                    locale@,
                    DataCategory::MzSpecificLong,
                );
                let error_field = ErrorField(
                    Field {
                        symbol: FieldSymbol::TimeZone(TimeZone::SpecificNonLocation),
                        length: FieldLength::Four,
                    },
                );
                let name_outcome = slot_load_outcome(old(self)@.mz_specific_long, (), name_fetch);
                &&& (name_outcome is Loaded ==> final(self)@ == (NamesModel {
                    mz_specific_long: slot_after_load(old(self)@.mz_specific_long, (), name_fetch),
                    mz_periods: slot_after_load(
                        old(self)@.mz_periods,
                        (),
                        spec_fetch_mz_periods(provider),
                    ),
                    ..old(self)@
                }) && r == outcome_result(
                    slot_load_outcome(old(self)@.mz_periods, (), spec_fetch_mz_periods(provider)),
                    error_field,
                ))
                &&& (!(name_outcome is Loaded) ==> final(self)@ == (NamesModel {
                    mz_specific_long: slot_after_load(old(self)@.mz_specific_long, (), name_fetch),
                    ..old(self)@
                }) && r == outcome_result(name_outcome, error_field))
            }),
    {
        let error_field = ErrorField(
            Field {
                symbol: FieldSymbol::TimeZone(TimeZone::SpecificNonLocation),
                length: FieldLength::Four,
            },
        );
        let mut name_loaded = false;
        match &self.mz_specific_long {
            NameSlot::Loaded(_, _) => {
                name_loaded = true;
            },
            NameSlot::Empty => {},
        }
        if !name_loaded {
            let key = DataKey {
                category: DataCategory::MzSpecificLong,
                attribute: None,
                locale: locale.clone(),
            };
            match provider.fetch(&key) {
                Ok(DataPayload::MzSpecific(m)) => {
                    self.mz_specific_long = NameSlot::Loaded((), m);
                },
                Ok(_) => {
                    return Err(PatternLoadError::Data(DataError::Malformed, error_field));
                },
                Err(e) => {
                    return Err(PatternLoadError::Data(e, error_field));
                },
            }
        }
        self.load_mz_periods(provider, error_field)
    }

    /// Loads specific non-location short names, and the metazone lookup.
    pub fn load_time_zone_specific_short_names<B: DataBackend + ?Sized>(
        &mut self,
        provider: &B,
        locale: &String,
    ) -> (r: Result<(), PatternLoadError>)
        ensures
            ({
                let name_fetch = spec_fetch_mz_specific(
                    provider,
                    locale@,
                    DataCategory::MzSpecificShort,
                );
                let error_field = ErrorField(
                    Field {
                        symbol: FieldSymbol::TimeZone(TimeZone::SpecificNonLocation),
                        length: FieldLength::One,
                    },
                );
                let name_outcome = slot_load_outcome(old(self)@.mz_specific_short, (), name_fetch);
                &&& (name_outcome is Loaded ==> final(self)@ == (NamesModel {
                    mz_specific_short: slot_after_load(
                        old(self)@.mz_specific_short,
                        (),
                        name_fetch,
                    ),
                    mz_periods: slot_after_load(
                        old(self)@.mz_periods,
                        (),
                        spec_fetch_mz_periods(provider),
                    ),
                    ..old(self)@
                }) && r == outcome_result(
                    slot_load_outcome(old(self)@.mz_periods, (), spec_fetch_mz_periods(provider)),
                    error_field,
                ))
                &&& (!(name_outcome is Loaded) ==> final(self)@ == (NamesModel {
                    mz_specific_short: slot_after_load(
                        old(self)@.mz_specific_short,
                        (),
                        name_fetch,
                    ),
                    ..old(self)@
                }) && r == outcome_result(name_outcome, error_field))
            }),
    {
        let error_field = ErrorField(
            Field {
                symbol: FieldSymbol::TimeZone(TimeZone::SpecificNonLocation),
                length: FieldLength::One,
            },
        );
        let mut name_loaded = false;
        match &self.mz_specific_short {
            NameSlot::Loaded(_, _) => {
                name_loaded = true;
            },
            NameSlot::Empty => {},
        }
        if !name_loaded {
            let key = DataKey {
                category: DataCategory::MzSpecificShort,
                attribute: None,
                locale: locale.clone(),
            };
            match provider.fetch(&key) {
                Ok(DataPayload::MzSpecific(m)) => {
                    self.mz_specific_short = NameSlot::Loaded((), m);
                },
                Ok(_) => {
                    return Err(PatternLoadError::Data(DataError::Malformed, error_field));
                },
                Err(e) => {
                    return Err(PatternLoadError::Data(e, error_field));
                },
            }
        }
        self.load_mz_periods(provider, error_field)
    }

    /// Loads the digit symbols, exactly once: if they are already loaded
    /// the backend is not consulted.  A digit table without exactly ten
    /// digits is refused as malformed.
    pub fn load_fixed_decimal_formatter<B: DataBackend + ?Sized>(
        &mut self,
        provider: &B,
        locale: &String,
    ) -> (r: Result<(), DataError>)
        ensures
            old(self)@.fixed_decimal_formatter is Some ==> final(self)@ == old(self)@ && r
                == Ok::<(), DataError>(()),
            old(self)@.fixed_decimal_formatter is None ==> match spec_fetch_decimal(
                provider,
                locale@,
            ) {
                Ok(d) => final(self)@ == (NamesModel {
                    fixed_decimal_formatter: Some(d),
                    ..old(self)@
                }) && r == Ok::<(), DataError>(()),
                Err(e) => final(self)@ == old(self)@ && r == Err::<(), DataError>(e),
            },
            old(self)@.wf() ==> final(self)@.wf(),
    {
        if self.fixed_decimal_formatter.is_some() {
            return Ok(());
        }
        let key = DataKey {
            category: DataCategory::DecimalSymbols,
            attribute: None,
            locale: locale.clone(),
        };
        match provider.fetch(&key) {
            Ok(DataPayload::Decimal(d)) => {
                if d.digits.len() == 10 {
                    self.fixed_decimal_formatter = Some(d);
                    Ok(())
                } else {
                    Err(DataError::Malformed)
                }
            },
            Ok(_) => Err(DataError::Malformed),
            Err(e) => Err(e),
        }
    }
}

/// Whether the engine knows how to resolve a field's symbol-and-length
/// combination at all.  The locale-dependent numeric weekday symbols are
/// the one combination deliberately refused.
pub open spec fn field_supported(f: Field) -> bool {
    match (f.symbol, f.length) {
        (FieldSymbol::Era, FieldLength::Six) => false,
        (FieldSymbol::Era, _) => true,
        (FieldSymbol::Year(Year::Cyclic), FieldLength::Six) => false,
        (FieldSymbol::Year(Year::Cyclic), _) => true,
        (FieldSymbol::Year(Year::Calendar), _) => true,
        (FieldSymbol::Year(Year::RelatedIso), _) => true,
        (FieldSymbol::Month(_), FieldLength::Six) => false,
        (FieldSymbol::Month(_), _) => true,
        (
            FieldSymbol::Weekday(Weekday::Local | Weekday::StandAlone),
            FieldLength::One | FieldLength::Two,
        ) => false,
        (FieldSymbol::Weekday(_), _) => true,
        (FieldSymbol::DayPeriod(_), FieldLength::Six) => false,
        (FieldSymbol::DayPeriod(_), _) => true,
        (
            FieldSymbol::TimeZone(TimeZone::SpecificNonLocation),
            FieldLength::One | FieldLength::Two | FieldLength::Three | FieldLength::Four,
        ) => true,
        (
            FieldSymbol::TimeZone(TimeZone::GenericNonLocation),
            FieldLength::One | FieldLength::Four,
        ) => true,
        (
            FieldSymbol::TimeZone(TimeZone::Location),
            FieldLength::One | FieldLength::Three | FieldLength::Four,
        ) => true,
        (
            FieldSymbol::TimeZone(TimeZone::LocalizedOffset),
            FieldLength::One | FieldLength::Four,
        ) => true,
        (FieldSymbol::TimeZone(TimeZone::Iso | TimeZone::IsoWithZ), FieldLength::Six) => false,
        (FieldSymbol::TimeZone(TimeZone::Iso | TimeZone::IsoWithZ), _) => true,
        (FieldSymbol::TimeZone(_), _) => false,
        (FieldSymbol::Day(Day::DayOfMonth), FieldLength::One | FieldLength::Two) => true,
        (
            FieldSymbol::Day(Day::DayOfYear),
            FieldLength::One | FieldLength::Two | FieldLength::Three,
        ) => true,
        (FieldSymbol::Day(Day::DayOfWeekInMonth), FieldLength::One) => true,
        (FieldSymbol::Day(_), _) => false,
        (FieldSymbol::Hour(_), FieldLength::One | FieldLength::Two) => true,
        (FieldSymbol::Hour(_), _) => false,
        (FieldSymbol::Minute, FieldLength::One | FieldLength::Two) => true,
        (FieldSymbol::Minute, _) => false,
        (FieldSymbol::Second(Second::Second), FieldLength::One | FieldLength::Two) => true,
        (FieldSymbol::Second(Second::Second), _) => false,
        (FieldSymbol::Second(Second::MillisInDay), _) => true,
        (FieldSymbol::DecimalSecond(_), FieldLength::One | FieldLength::Two) => true,
        (FieldSymbol::DecimalSecond(_), _) => false,
    }
}

/// Whether a field renders digits, so that the digit symbols must be
/// loaded for it.
pub open spec fn field_needs_fdf(f: Field) -> bool {
    match (f.symbol, f.length) {
        (FieldSymbol::Year(Year::Cyclic), _) => true,
        (FieldSymbol::Year(Year::Calendar), _) => true,
        (FieldSymbol::Month(_), FieldLength::One | FieldLength::Two) => true,
        (FieldSymbol::TimeZone(TimeZone::SpecificNonLocation), _) => true,
        (FieldSymbol::TimeZone(TimeZone::GenericNonLocation), _) => true,
        (
            FieldSymbol::TimeZone(TimeZone::Location),
            FieldLength::Three | FieldLength::Four,
        ) => true,
        (FieldSymbol::TimeZone(TimeZone::LocalizedOffset), _) => true,
        (FieldSymbol::Day(_), _) => true,
        (FieldSymbol::Hour(_), _) => true,
        (FieldSymbol::Minute, _) => true,
        (FieldSymbol::Second(_), _) => true,
        (FieldSymbol::DecimalSecond(_), _) => true,
        _ => false,
    }
}

/// Whether the name slots a field needs are loaded with the widths the
/// field selects.  The digit symbols are accounted separately, by
/// [`field_needs_fdf`].
pub open spec fn field_ready_names(m: NamesModel, f: Field) -> bool {
    match (f.symbol, f.length) {
        (FieldSymbol::Era, _) | (FieldSymbol::Year(Year::Cyclic), _) => {
            &&& YearNameLength::spec_from_field_length(f.length) matches Some(d) && slot_get(
                m.year_names,
                d,
            ) is Some
        },
        (FieldSymbol::Year(_), _) => true,
        (
            FieldSymbol::Month(ms),
            FieldLength::Three | FieldLength::Four | FieldLength::Five,
        ) => {
            &&& MonthNameLength::spec_from_field(ms, f.length) matches Some(d) && slot_get(
                m.month_names,
                d,
            ) is Some
        },
        (FieldSymbol::Month(_), _) => true,
        (FieldSymbol::Weekday(ws), _) => {
            &&& WeekdayNameLength::spec_from_field(ws, f.length) matches Some(d) && slot_get(
                m.weekday_names,
                d,
            ) is Some
        },
        (FieldSymbol::DayPeriod(ps), _) => {
            &&& DayPeriodNameLength::spec_from_field(ps, f.length) matches Some(d) && slot_get(
                m.dayperiod_names,
                d,
            ) is Some
        },
        (
            FieldSymbol::TimeZone(TimeZone::SpecificNonLocation),
            FieldLength::One | FieldLength::Two | FieldLength::Three,
        ) => {
            &&& m.zone_essentials is Loaded
            &&& m.mz_specific_short is Loaded
            &&& m.mz_periods is Loaded
        },
        (FieldSymbol::TimeZone(TimeZone::SpecificNonLocation), _) => {
            &&& m.zone_essentials is Loaded
            &&& m.mz_specific_long is Loaded
            &&& m.mz_periods is Loaded
            &&& m.locations_root is Loaded
            &&& m.locations is Loaded
        },
        (FieldSymbol::TimeZone(TimeZone::GenericNonLocation), FieldLength::One) => {
            &&& m.zone_essentials is Loaded
            &&& m.mz_generic_short is Loaded
            &&& m.mz_periods is Loaded
            &&& m.locations_root is Loaded
            &&& m.locations is Loaded
        },
        (FieldSymbol::TimeZone(TimeZone::GenericNonLocation), _) => {
            &&& m.zone_essentials is Loaded
            &&& m.mz_generic_long is Loaded
            &&& m.mz_periods is Loaded
            &&& m.locations_root is Loaded
            &&& m.locations is Loaded
        },
        (FieldSymbol::TimeZone(TimeZone::Location), FieldLength::One) => true,
        (FieldSymbol::TimeZone(TimeZone::Location), FieldLength::Three) => {
            &&& m.locations_root is Loaded
            &&& m.locations is Loaded
            &&& m.exemplars_root is Loaded
            &&& m.exemplars is Loaded
        },
        (FieldSymbol::TimeZone(TimeZone::Location), _) => {
            &&& m.zone_essentials is Loaded
            &&& m.locations_root is Loaded
            &&& m.locations is Loaded
        },
        (FieldSymbol::TimeZone(TimeZone::LocalizedOffset), _) => m.zone_essentials is Loaded,
        (FieldSymbol::TimeZone(_), _) => true,
        _ => true,
    }
}

/// Everything a field needs is loaded: the combination is supported, the
/// name slots it reads are loaded with the widths it selects, and the
/// digit symbols are loaded if it renders digits.
pub open spec fn field_ready(m: NamesModel, f: Field) -> bool {
    &&& field_supported(f)
    &&& field_ready_names(m, f)
    &&& (field_needs_fdf(f) ==> m.fixed_decimal_formatter is Some)
}

/// Readiness of a field's name slots survives further loading: loading
/// never unloads or replaces what a ready field relies on.
pub proof fn lemma_ready_names_monotonic(a: NamesModel, b: NamesModel, f: Field)
    requires
        names_monotonic(a, b),
        field_ready_names(a, f),
    ensures
        field_ready_names(b, f),
{
}

/// What the scanner does with one field item: an unsupported
/// symbol-and-length combination is refused with the container untouched;
/// a supported one issues the loads its table row demands, in order,
/// stopping at the first failure.
pub open spec fn scan_field_step<B: DataBackend + ?Sized>(
    provider: &B,
    locale: Seq<char>,
    m: NamesModel,
    f: Field,
) -> (NamesModel, Result<(), PatternLoadError>) {
    let error_field = ErrorField(f);
    let unsupported = Err::<(), PatternLoadError>(
        PatternLoadError::UnsupportedLength(error_field),
    );
    match (f.symbol, f.length) {
        (FieldSymbol::Era, FieldLength::Six) => (m, unsupported),
        (FieldSymbol::Era, _) => match YearNameLength::spec_from_field_length(f.length) {
            Some(length) => step_year(provider, locale, m, length, error_field),
            None => (m, unsupported),
        },
        (FieldSymbol::Year(Year::Cyclic), FieldLength::Six) => (m, unsupported),
        (FieldSymbol::Year(Year::Cyclic), _) => match YearNameLength::spec_from_field_length(
            f.length,
        ) {
            Some(length) => step_year(provider, locale, m, length, error_field),
            None => (m, unsupported),
        },
        (
            FieldSymbol::Month(month_symbol),
            FieldLength::Three | FieldLength::Four | FieldLength::Five,
        ) => match MonthNameLength::spec_from_field(month_symbol, f.length) {
            Some(length) => step_month(provider, locale, m, length, error_field),
            None => (m, unsupported),
        },
        (FieldSymbol::Month(_), FieldLength::One | FieldLength::Two) => (m, Ok(())),
        (FieldSymbol::Month(_), _) => (m, unsupported),
        (
            FieldSymbol::Weekday(Weekday::Local | Weekday::StandAlone),
            FieldLength::One | FieldLength::Two,
        ) => (m, unsupported),
        (FieldSymbol::Weekday(weekday_symbol), _) => match WeekdayNameLength::spec_from_field(
            weekday_symbol,
            f.length,
        ) {
            Some(length) => step_weekday(provider, locale, m, length, error_field),
            None => (m, unsupported),
        },
        (FieldSymbol::DayPeriod(period_symbol), _) => match DayPeriodNameLength::spec_from_field(
            period_symbol,
            f.length,
        ) {
            Some(length) => step_day_period(provider, locale, m, length, error_field),
            None => (m, unsupported),
        },
        (
            FieldSymbol::TimeZone(TimeZone::SpecificNonLocation),
            FieldLength::One | FieldLength::Two | FieldLength::Three,
        ) => {
            let (m1, r1) = step_zone_essentials(provider, locale, m);
            if r1 is Err {
                (m1, r1)
            } else {
                step_specific_short(provider, locale, m1)
            }
        },
        (FieldSymbol::TimeZone(TimeZone::SpecificNonLocation), FieldLength::Four) => {
            let (m1, r1) = step_zone_essentials(provider, locale, m);
            if r1 is Err {
                (m1, r1)
            } else {
                let (m2, r2) = step_specific_long(provider, locale, m1);
                if r2 is Err {
                    (m2, r2)
                } else {
                    step_locations(provider, locale, m2)
                }
            }
        },
        (FieldSymbol::TimeZone(TimeZone::GenericNonLocation), FieldLength::One) => {
            let (m1, r1) = step_zone_essentials(provider, locale, m);
            if r1 is Err {
                (m1, r1)
            } else {
                let (m2, r2) = step_generic_short(provider, locale, m1);
                if r2 is Err {
                    (m2, r2)
                } else {
                    step_locations(provider, locale, m2)
                }
            }
        },
        (FieldSymbol::TimeZone(TimeZone::GenericNonLocation), FieldLength::Four) => {
            let (m1, r1) = step_zone_essentials(provider, locale, m);
            if r1 is Err {
                (m1, r1)
            } else {
                let (m2, r2) = step_generic_long(provider, locale, m1);
                if r2 is Err {
                    (m2, r2)
                } else {
                    step_locations(provider, locale, m2)
                }
            }
        },
        (FieldSymbol::TimeZone(TimeZone::Location), FieldLength::One) => (m, Ok(())),
        (FieldSymbol::TimeZone(TimeZone::Location), FieldLength::Three) => {
            let (m1, r1) = step_locations(provider, locale, m);
            if r1 is Err {
                (m1, r1)
            } else {
                step_exemplars(provider, locale, m1)
            }
        },
        (FieldSymbol::TimeZone(TimeZone::Location), FieldLength::Four) => {
            let (m1, r1) = step_zone_essentials(provider, locale, m);
            if r1 is Err {
                (m1, r1)
            } else {
                step_locations(provider, locale, m1)
            }
        },
        (
            FieldSymbol::TimeZone(TimeZone::LocalizedOffset),
            FieldLength::One | FieldLength::Four,
        ) => step_zone_essentials(provider, locale, m),
        (FieldSymbol::TimeZone(TimeZone::Iso | TimeZone::IsoWithZ), FieldLength::Six) => (
            m,
            unsupported,
        ),
        (FieldSymbol::TimeZone(TimeZone::Iso | TimeZone::IsoWithZ), _) => (m, Ok(())),
        (FieldSymbol::TimeZone(_), _) => (m, unsupported),
        (FieldSymbol::Year(_), _) => (m, Ok(())),
        (FieldSymbol::Day(Day::DayOfMonth), FieldLength::One | FieldLength::Two) => (m, Ok(())),
        (
            FieldSymbol::Day(Day::DayOfYear),
            FieldLength::One | FieldLength::Two | FieldLength::Three,
        ) => (m, Ok(())),
        (FieldSymbol::Day(Day::DayOfWeekInMonth), FieldLength::One) => (m, Ok(())),
        (FieldSymbol::Day(_), _) => (m, unsupported),
        (FieldSymbol::Hour(_), FieldLength::One | FieldLength::Two) => (m, Ok(())),
        (FieldSymbol::Hour(_), _) => (m, unsupported),
        (FieldSymbol::Minute, FieldLength::One | FieldLength::Two) => (m, Ok(())),
        (FieldSymbol::Minute, _) => (m, unsupported),
        (FieldSymbol::Second(Second::Second), FieldLength::One | FieldLength::Two) => (m, Ok(())),
        (FieldSymbol::Second(Second::Second), _) => (m, unsupported),
        (FieldSymbol::Second(Second::MillisInDay), _) => (m, Ok(())),
        (FieldSymbol::DecimalSecond(_), FieldLength::One | FieldLength::Two) => (m, Ok(())),
        (FieldSymbol::DecimalSecond(_), _) => (m, unsupported),
    }
}

/// The scan of an item sequence: literals are skipped, each field item is
/// processed by [`scan_field_step`] in order, the first failure stops the
/// scan, and the last field that renders digits is remembered so that the
/// digit symbols can be loaded once afterwards.
pub open spec fn spec_scan<B: DataBackend + ?Sized>(
    provider: &B,
    locale: Seq<char>,
    m: NamesModel,
    items: Seq<PatternItemModel>,
    numeric_field: Option<Field>,
) -> (NamesModel, Option<Field>, Result<(), PatternLoadError>)
    decreases items.len(),
{
    if items.len() == 0 {
        (m, numeric_field, Ok(()))
    } else {
        match items[0] {
            PatternItemModel::Literal(_) => spec_scan(
                provider,
                locale,
                m,
                items.drop_first(),
                numeric_field,
            ),
            PatternItemModel::Field(f) => {
                let numeric_after = if field_needs_fdf(f) {
                    Some(f)
                } else {
                    numeric_field
                };
                let (m_after, r) = scan_field_step(provider, locale, m, f);
                if r is Err {
                    (m_after, numeric_after, r)
                } else {
                    spec_scan(provider, locale, m_after, items.drop_first(), numeric_after)
                }
            },
        }
    }
}

/// The complete behaviour of the requirement scanner: the scan of every
/// item, fail-fast, and then one digit-symbols load exactly when some
/// scanned field renders digits, its failure reported against that field.
pub open spec fn spec_load_for_pattern<B: DataBackend + ?Sized>(
    provider: &B,
    locale: Seq<char>,
    m: NamesModel,
    items: Seq<PatternItemModel>,
) -> (NamesModel, Result<(), PatternLoadError>) {
    let (m_after, numeric_field, r) = spec_scan(provider, locale, m, items, None);
    if r is Err {
        (m_after, r)
    } else {
        match numeric_field {
            None => (m_after, Ok(())),
            Some(f) => {
                let (m_final, decimal_result) = step_decimal(provider, locale, m_after);
                match decimal_result {
                    Ok(_) => (m_final, Ok(())),
                    Err(e) => (m_final, Err(PatternLoadError::Data(e, ErrorField(f)))),
                }
            },
        }
    }
}

/// Whether a field renders digits, deciding the single digit-symbols
/// load after the scan.
fn field_needs_digits(field: Field) -> (r: bool)
    ensures
        r == field_needs_fdf(field),
{
    match (field.symbol, field.length) {
        (FieldSymbol::Year(Year::Cyclic), _) => true,
        (FieldSymbol::Year(Year::Calendar), _) => true,
        (FieldSymbol::Month(_), FieldLength::One | FieldLength::Two) => true,
        (FieldSymbol::TimeZone(TimeZone::SpecificNonLocation), _) => true,
        (FieldSymbol::TimeZone(TimeZone::GenericNonLocation), _) => true,
        (
            FieldSymbol::TimeZone(TimeZone::Location),
            FieldLength::Three | FieldLength::Four,
        ) => true,
        (FieldSymbol::TimeZone(TimeZone::LocalizedOffset), _) => true,
        (FieldSymbol::Day(_), _) => true,
        (FieldSymbol::Hour(_), _) => true,
        (FieldSymbol::Minute, _) => true,
        (FieldSymbol::Second(_), _) => true,
        (FieldSymbol::DecimalSecond(_), _) => true,
        _ => false,
    }
}

impl DateTimeNames {
    /// Issues the loads one field item demands, per its table row, in
    /// order and stopping at the first failure: exactly the behaviour of
    /// [`scan_field_step`].
    #[verifier::rlimit(100)]
    #[verifier::spinoff_prover]
    fn scan_field<B: DataBackend + ?Sized>(
        &mut self,
        provider: &B,
        locale: &String,
        field: Field,
    ) -> (r: Result<(), PatternLoadError>)
        ensures
            final(self)@ == scan_field_step(provider, locale@, old(self)@, field).0,
            r == scan_field_step(provider, locale@, old(self)@, field).1,
            names_monotonic(old(self)@, final(self)@),
            old(self)@.wf() ==> final(self)@.wf(),
            r is Ok ==> field_supported(field) && field_ready_names(final(self)@, field),
    {
        let error_field = ErrorField(field);
        match (field.symbol, field.length) {
            (FieldSymbol::Era, FieldLength::Six) => Err(
                PatternLoadError::UnsupportedLength(error_field),
            ),
            (FieldSymbol::Era, _) => match YearNameLength::from_field_length(field.length) {
                Some(length) => self.load_year_names(provider, locale, length, error_field),
                None => Err(PatternLoadError::UnsupportedLength(error_field)),
            },
            (FieldSymbol::Year(Year::Cyclic), FieldLength::Six) => Err(
                PatternLoadError::UnsupportedLength(error_field),
            ),
            (FieldSymbol::Year(Year::Cyclic), _) => match YearNameLength::from_field_length(
                field.length,
            ) {
                Some(length) => self.load_year_names(provider, locale, length, error_field),
                None => Err(PatternLoadError::UnsupportedLength(error_field)),
            },
            (
                FieldSymbol::Month(month_symbol),
                FieldLength::Three | FieldLength::Four | FieldLength::Five,
            ) => match MonthNameLength::from_field(month_symbol, field.length) {
                Some(length) => self.load_month_names(provider, locale, length, error_field),
                None => Err(PatternLoadError::UnsupportedLength(error_field)),
            },
            (FieldSymbol::Month(_), FieldLength::One | FieldLength::Two) => Ok(()),
            (FieldSymbol::Month(_), _) => Err(
                PatternLoadError::UnsupportedLength(error_field),
            ),
            (
                FieldSymbol::Weekday(Weekday::Local | Weekday::StandAlone),
                FieldLength::One | FieldLength::Two,
            ) => Err(PatternLoadError::UnsupportedLength(error_field)),
            (FieldSymbol::Weekday(weekday_symbol), _) => match WeekdayNameLength::from_field(
                weekday_symbol,
                field.length,
            ) {
                Some(length) => self.load_weekday_names(provider, locale, length, error_field),
                None => Err(PatternLoadError::UnsupportedLength(error_field)),
            },
            (FieldSymbol::DayPeriod(period_symbol), _) => match DayPeriodNameLength::from_field(
                period_symbol,
                field.length,
            ) {
                Some(length) => self.load_day_period_names(provider, locale, length, error_field),
                None => Err(PatternLoadError::UnsupportedLength(error_field)),
            },
            (
                FieldSymbol::TimeZone(TimeZone::SpecificNonLocation),
                FieldLength::One | FieldLength::Two | FieldLength::Three,
            ) => match self.load_time_zone_essentials(provider, locale) {
                Err(e) => Err(e),
                Ok(()) => self.load_time_zone_specific_short_names(provider, locale),
            },
            (FieldSymbol::TimeZone(TimeZone::SpecificNonLocation), FieldLength::Four) => {
                match self.load_time_zone_essentials(provider, locale) {
                    Err(e) => Err(e),
                    Ok(()) => match self.load_time_zone_specific_long_names(provider, locale) {
                        Err(e) => Err(e),
                        Ok(()) => self.load_time_zone_location_names(provider, locale),
                    },
                }
            },
            (FieldSymbol::TimeZone(TimeZone::GenericNonLocation), FieldLength::One) => {
                match self.load_time_zone_essentials(provider, locale) {
                    Err(e) => Err(e),
                    Ok(()) => match self.load_time_zone_generic_short_names(provider, locale) {
                        Err(e) => Err(e),
                        Ok(()) => self.load_time_zone_location_names(provider, locale),
                    },
                }
            },
            (FieldSymbol::TimeZone(TimeZone::GenericNonLocation), FieldLength::Four) => {
                match self.load_time_zone_essentials(provider, locale) {
                    Err(e) => Err(e),
                    Ok(()) => match self.load_time_zone_generic_long_names(provider, locale) {
                        Err(e) => Err(e),
                        Ok(()) => self.load_time_zone_location_names(provider, locale),
                    },
                }
            },
            (FieldSymbol::TimeZone(TimeZone::Location), FieldLength::One) => Ok(()),
            (FieldSymbol::TimeZone(TimeZone::Location), FieldLength::Three) => {
                match self.load_time_zone_location_names(provider, locale) {
                    Err(e) => Err(e),
                    Ok(()) => self.load_time_zone_exemplar_cities_names(provider, locale),
                }
            },
            (FieldSymbol::TimeZone(TimeZone::Location), FieldLength::Four) => {
                match self.load_time_zone_essentials(provider, locale) {
                    Err(e) => Err(e),
                    Ok(()) => self.load_time_zone_location_names(provider, locale),
                }
            },
            (
                FieldSymbol::TimeZone(TimeZone::LocalizedOffset),
                FieldLength::One | FieldLength::Four,
            ) => self.load_time_zone_essentials(provider, locale),
            (FieldSymbol::TimeZone(TimeZone::Iso | TimeZone::IsoWithZ), FieldLength::Six) => Err(
                PatternLoadError::UnsupportedLength(error_field),
            ),
            (FieldSymbol::TimeZone(TimeZone::Iso | TimeZone::IsoWithZ), _) => Ok(()),
            (FieldSymbol::TimeZone(_), _) => Err(
                PatternLoadError::UnsupportedLength(error_field),
            ),
            (FieldSymbol::Year(_), _) => Ok(()),
            (FieldSymbol::Day(Day::DayOfMonth), FieldLength::One | FieldLength::Two) => Ok(()),
            (
                FieldSymbol::Day(Day::DayOfYear),
                FieldLength::One | FieldLength::Two | FieldLength::Three,
            ) => Ok(()),
            (FieldSymbol::Day(Day::DayOfWeekInMonth), FieldLength::One) => Ok(()),
            (FieldSymbol::Day(_), _) => Err(PatternLoadError::UnsupportedLength(error_field)),
            (FieldSymbol::Hour(_), FieldLength::One | FieldLength::Two) => Ok(()),
            (FieldSymbol::Hour(_), _) => Err(PatternLoadError::UnsupportedLength(error_field)),
            (FieldSymbol::Minute, FieldLength::One | FieldLength::Two) => Ok(()),
            (FieldSymbol::Minute, _) => Err(PatternLoadError::UnsupportedLength(error_field)),
            (
                FieldSymbol::Second(Second::Second),
                FieldLength::One | FieldLength::Two,
            ) => Ok(()),
            (FieldSymbol::Second(Second::Second), _) => Err(
                PatternLoadError::UnsupportedLength(error_field),
            ),
            (FieldSymbol::Second(Second::MillisInDay), _) => Ok(()),
            (
                FieldSymbol::DecimalSecond(_),
                FieldLength::One | FieldLength::Two,
            ) => Ok(()),
            (FieldSymbol::DecimalSecond(_), _) => Err(
                PatternLoadError::UnsupportedLength(error_field),
            ),
        }
    }

    /// Walks the pattern's field items once, loading for each one what
    /// it requires and stopping at the first unsupported combination or
    /// failed load, then loads the digit symbols once if and only if
    /// some field renders digits: exactly the behaviour of
    /// [`spec_load_for_pattern`].
    ///
    /// On success every field of the pattern is ready.  Whatever the
    /// outcome, nothing already loaded is lost or changed, and a
    /// well-formed container stays well formed.
    #[verifier::rlimit(100)]
    #[verifier::spinoff_prover]
    pub fn load_for_pattern<B: DataBackend + ?Sized>(
        &mut self,
        provider: &B,
        locale: &String,
        pattern: &DateTimePattern,
    ) -> (r: Result<(), PatternLoadError>)
        ensures
            final(self)@ == spec_load_for_pattern(provider, locale@, old(self)@, pattern@).0,
            r == spec_load_for_pattern(provider, locale@, old(self)@, pattern@).1,
            names_monotonic(old(self)@, final(self)@),
            old(self)@.wf() ==> final(self)@.wf(),
            r is Ok ==> forall|i: int|
                0 <= i < pattern@.len() ==> (#[trigger] pattern@[i] matches
                    PatternItemModel::Field(f) ==> field_ready(final(self)@, f)),
    {
        let ghost start = self@;
        let ghost items = pattern@;
        let mut numeric_field: Option<Field> = None;
        let mut idx: usize = 0;
        proof {
            assert(items.skip(0) =~= items);
        }
        while idx < pattern.items.len()
            invariant
                idx <= pattern.items.len(),
                start == old(self)@,
                items == pattern@,
                names_monotonic(start, self@),
                start.wf() ==> self@.wf(),
                spec_scan(provider, locale@, self@, items.skip(idx as int), numeric_field)
                    == spec_scan(provider, locale@, start, items, None),
                forall|i: int|
                    0 <= i < idx ==> (#[trigger] items[i] matches PatternItemModel::Field(f)
                        ==> field_supported(f) && field_ready_names(self@, f) && (field_needs_fdf(
                        f,
                    ) ==> numeric_field is Some)),
            decreases pattern.items.len() - idx,
        {
            let ghost before_item = self@;
            let ghost numeric_before = numeric_field;
            proof {
                assert(pattern@[idx as int] == pattern.items@[idx as int]@);
                assert(items.skip(idx as int)[0] == items[idx as int]);
                assert(items.skip(idx as int).drop_first() =~= items.skip(idx as int + 1));
            }
            let item = &pattern.items[idx];
            let field: Field = match item {
                PatternItem::Literal(_) => {
                    idx += 1;
                    continue ;
                },
                PatternItem::Field(f) => *f,
            };
            if field_needs_digits(field) {
                numeric_field = Some(field);
            }
            let scan_result = self.scan_field(provider, locale, field);
            proof {
                assert(items[idx as int] == PatternItemModel::Field(field));
                assert(names_monotonic(start, self@));
                assert((self@, scan_result) == scan_field_step(
                    provider,
                    locale@,
                    before_item,
                    field,
                ));
            }
            match scan_result {
                Ok(()) => {},
                Err(e) => {
                    proof {
                        assert(spec_scan(
                            provider,
                            locale@,
                            before_item,
                            items.skip(idx as int),
                            numeric_before,
                        ) == (self@, numeric_field, Err::<(), PatternLoadError>(e)));
                        assert(spec_load_for_pattern(provider, locale@, start, items) == (
                            self@,
                            Err::<(), PatternLoadError>(e),
                        ));
                    }
                    return Err(e);
                },
            }
            proof {
                assert forall|i: int|
                    0 <= i < idx + 1 implies (#[trigger] items[i] matches
                    PatternItemModel::Field(f) ==> field_supported(f) && field_ready_names(
                    self@,
                    f,
                ) && (field_needs_fdf(f) ==> numeric_field is Some)) by {
                    if i < idx {
                        if items[i] is Field {
                            let f = items[i]->Field_0;
                            lemma_ready_names_monotonic(before_item, self@, f);
                        }
                    }
                }
            }
            idx += 1;
        }
        proof {
            assert(items.skip(idx as int).len() == 0);
            assert(spec_scan(provider, locale@, start, items, None) == (
                self@,
                numeric_field,
                Ok::<(), PatternLoadError>(()),
            ));
        }
        let ghost before_fdf = self@;
        match numeric_field {
            Some(field) => {
                match self.load_fixed_decimal_formatter(provider, locale) {
                    Ok(()) => {},
                    Err(e) => {
                        proof {
                            assert((self@, Err::<(), DataError>(e)) == step_decimal(
                                provider,
                                locale@,
                                before_fdf,
                            ));
                        }
                        return Err(PatternLoadError::Data(e, ErrorField(field)));
                    },
                }
                proof {
                    assert((self@, Ok::<(), DataError>(())) == step_decimal(
                        provider,
                        locale@,
                        before_fdf,
                    ));
                }
            },
            None => {},
        }
        proof {
            assert forall|i: int|
                0 <= i < pattern@.len() implies (#[trigger] pattern@[i] matches
                PatternItemModel::Field(f) ==> field_ready(self@, f)) by {
                if pattern@[i] is Field {
                    let f = pattern@[i]->Field_0;
                    lemma_ready_names_monotonic(before_fdf, self@, f);
                }
            }
        }
        Ok(())
    }
}

} // verus!
