//! The public formatter type: a set of name containers bound to a locale
//! and a data backend, the per-category loading calls, and the
//! association with a pattern.
//!
//! Loading mutates the containers through `&mut` access; interpretation
//! reads them through a shared borrow.  The borrow rules therefore keep a
//! load from interleaving with an in-flight interpretation.

use vstd::prelude::*;
use crate::backend::DataBackend;
use crate::errors::{DataError, PatternLoadError};
use crate::fields::{DateTimePattern, PatternItemModel};
use crate::format::{FormattedDateTimePattern, format_pattern, spec_format, parts_view, error_view};
use crate::input::RuntimeInput;
use crate::length::{
    DayPeriodNameLength, MonthNameLength, WeekdayNameLength, YearNameLength,
};
use crate::load::{
    field_ready, names_monotonic, outcome_result, spec_fetch_day_period, spec_fetch_decimal,
    spec_fetch_month, spec_fetch_weekday, spec_fetch_year, spec_load_for_pattern, step_decimal,
    step_generic_long, step_generic_short, step_locations, step_specific_long,
    step_specific_short, step_zone_essentials,
};
use crate::names::{DateTimeNames, NamesModel};
use crate::slots::{slot_after_load, slot_load_outcome};

verus! {

/// A low-level formatter that resolves pattern fields against loaded
/// names.  It is created empty, bound to a resolved locale and a data
/// backend; each name category is loaded at most once over its lifetime.
#[derive(Debug)]
pub struct TypedDateTimeNames<B: DataBackend> {
    /// The resolved locale the containers are loaded for.
    pub locale: String,
    /// The name containers.
    pub inner: DateTimeNames,
    /// The backend the convenience loading calls read from.
    pub backend: B,
}

impl<B: DataBackend> TypedDateTimeNames<B> {
    /// The loaded digit symbols, if any, are well formed.
    pub open spec fn wf(self) -> bool {
        self.inner@.wf()
    }

    /// An empty instance that eagerly loads the digit symbols, so that
    /// numeric fields can render through them from the start.
    pub fn try_new(locale: String, backend: B) -> (r: Result<Self, DataError>)
        ensures
            match r {
                Ok(names) => {
                    &&& names.wf()
                    &&& names.locale@ == locale@
                    &&& names.backend == backend
                    &&& names.inner@ == (NamesModel {
                        fixed_decimal_formatter: match spec_fetch_decimal(&backend, locale@) {
                            Ok(d) => Some(d),
                            Err(_) => None,
                        },
                        ..NamesModel::all_empty()
                    })
                    &&& spec_fetch_decimal(&backend, locale@) is Ok
                },
                Err(e) => spec_fetch_decimal(&backend, locale@) == Err::<
                    crate::data::DecimalSymbolsModel,
                    DataError,
                >(e),
            },
    {
        let mut names = TypedDateTimeNames {
            locale,
            inner: DateTimeNames::new_empty(),
            backend,
        };
        match names.inner.load_fixed_decimal_formatter(&names.backend, &names.locale) {
            Ok(()) => Ok(names),
            Err(e) => Err(e),
        }
    }

    /// A completely empty instance, without even the digit symbols.
    pub fn new_without_number_formatting(locale: String, backend: B) -> (r: Self)
        ensures
            r.wf(),
            r.locale@ == locale@,
            r.backend == backend,
            r.inner@ == NamesModel::all_empty(),
    {
        TypedDateTimeNames { locale, inner: DateTimeNames::new_empty(), backend }
    }

    /// Loads year (era or cyclic) names of the given width from the given
    /// provider.
    pub fn load_year_names<P: DataBackend + ?Sized>(
        &mut self,
        provider: &P,
        length: YearNameLength,
    ) -> (r: Result<(), PatternLoadError>)
        ensures
            final(self).inner@ == (NamesModel {
                year_names: slot_after_load(
                    old(self).inner@.year_names,
                    length,
                    spec_fetch_year(provider, old(self).locale@, length),
                ),
                ..old(self).inner@
            }),
            r == outcome_result(
                slot_load_outcome(
                    old(self).inner@.year_names,
                    length,
                    spec_fetch_year(provider, old(self).locale@, length),
                ),
                length.spec_to_approximate_error_field(),
            ),
            final(self).locale == old(self).locale,
            final(self).backend == old(self).backend,
            old(self).wf() ==> final(self).wf(),
    {
        let error_field = length.to_approximate_error_field();
        self.inner.load_year_names(provider, &self.locale, length, error_field)
    }

    /// Loads year names of the given width from the bound backend.
    pub fn include_year_names(&mut self, length: YearNameLength) -> (r: Result<
        (),
        PatternLoadError,
    >)
        ensures
            final(self).inner@ == (NamesModel {
                year_names: slot_after_load(
                    old(self).inner@.year_names,
                    length,
                    spec_fetch_year(&old(self).backend, old(self).locale@, length),
                ),
                ..old(self).inner@
            }),
            r == outcome_result(
                slot_load_outcome(
                    old(self).inner@.year_names,
                    length,
                    spec_fetch_year(&old(self).backend, old(self).locale@, length),
                ),
                length.spec_to_approximate_error_field(),
            ),
            final(self).locale == old(self).locale,
            final(self).backend == old(self).backend,
            old(self).wf() ==> final(self).wf(),
    {
        let error_field = length.to_approximate_error_field();
        self.inner.load_year_names(&self.backend, &self.locale, length, error_field)
    }

    /// Loads month names of the given width and context from the given
    /// provider.
    pub fn load_month_names<P: DataBackend + ?Sized>(
        &mut self,
        provider: &P,
        length: MonthNameLength,
    ) -> (r: Result<(), PatternLoadError>)
        ensures
            final(self).inner@ == (NamesModel {
                month_names: slot_after_load(
                    old(self).inner@.month_names,
                    length,
                    spec_fetch_month(provider, old(self).locale@, length),
                ),
                ..old(self).inner@
            }),
            r == outcome_result(
                slot_load_outcome(
                    old(self).inner@.month_names,
                    length,
                    spec_fetch_month(provider, old(self).locale@, length),
                ),
                length.spec_to_approximate_error_field(),
            ),
            final(self).locale == old(self).locale,
            final(self).backend == old(self).backend,
            old(self).wf() ==> final(self).wf(),
    {
        let error_field = length.to_approximate_error_field();
        self.inner.load_month_names(provider, &self.locale, length, error_field)
    }

    /// Loads month names of the given width and context from the bound
    /// backend.  A repeat request with the loaded width succeeds without
    /// a fetch; a different width is a conflict.
    pub fn include_month_names(&mut self, length: MonthNameLength) -> (r: Result<
        (),
        PatternLoadError,
    >)
        ensures
            final(self).inner@ == (NamesModel {
                month_names: slot_after_load(
                    old(self).inner@.month_names,
                    length,
                    spec_fetch_month(&old(self).backend, old(self).locale@, length),
                ),
                ..old(self).inner@
            }),
            r == outcome_result(
                slot_load_outcome(
                    old(self).inner@.month_names,
                    length,
                    spec_fetch_month(&old(self).backend, old(self).locale@, length),
                ),
                length.spec_to_approximate_error_field(),
            ),
            final(self).locale == old(self).locale,
            final(self).backend == old(self).backend,
            old(self).wf() ==> final(self).wf(),
    {
        let error_field = length.to_approximate_error_field();
        self.inner.load_month_names(&self.backend, &self.locale, length, error_field)
    }

    /// Loads weekday names of the given width and context from the given
    /// provider.
    pub fn load_weekday_names<P: DataBackend + ?Sized>(
        &mut self,
        provider: &P,
        length: WeekdayNameLength,
    ) -> (r: Result<(), PatternLoadError>)
        ensures
            final(self).inner@ == (NamesModel {
                weekday_names: slot_after_load(
                    old(self).inner@.weekday_names,
                    length,
                    spec_fetch_weekday(provider, old(self).locale@, length),
                ),
                ..old(self).inner@
            }),
            r == outcome_result(
                slot_load_outcome(
                    old(self).inner@.weekday_names,
                    length,
                    spec_fetch_weekday(provider, old(self).locale@, length),
                ),
                length.spec_to_approximate_error_field(),
            ),
            final(self).locale == old(self).locale,
            final(self).backend == old(self).backend,
            old(self).wf() ==> final(self).wf(),
    {
        let error_field = length.to_approximate_error_field();
        self.inner.load_weekday_names(provider, &self.locale, length, error_field)
    }

    /// Loads weekday names of the given width and context from the bound
    /// backend.
    pub fn include_weekday_names(&mut self, length: WeekdayNameLength) -> (r: Result<
        (),
        PatternLoadError,
    >)
        ensures
            final(self).inner@ == (NamesModel {
                weekday_names: slot_after_load(
                    old(self).inner@.weekday_names,
                    length,
                    spec_fetch_weekday(&old(self).backend, old(self).locale@, length),
                ),
                ..old(self).inner@
            }),
            r == outcome_result(
                slot_load_outcome(
                    old(self).inner@.weekday_names,
                    length,
                    spec_fetch_weekday(&old(self).backend, old(self).locale@, length),
                ),
                length.spec_to_approximate_error_field(),
            ),
            final(self).locale == old(self).locale,
            final(self).backend == old(self).backend,
            old(self).wf() ==> final(self).wf(),
    {
        let error_field = length.to_approximate_error_field();
        self.inner.load_weekday_names(&self.backend, &self.locale, length, error_field)
    }

    /// Loads day-period names of the given width from the given provider.
    pub fn load_day_period_names<P: DataBackend + ?Sized>(
        &mut self,
        provider: &P,
        length: DayPeriodNameLength,
    ) -> (r: Result<(), PatternLoadError>)
        ensures
            final(self).inner@ == (NamesModel {
                dayperiod_names: slot_after_load(
                    old(self).inner@.dayperiod_names,
                    length,
                    spec_fetch_day_period(provider, old(self).locale@, length),
                ),
                ..old(self).inner@
            }),
            r == outcome_result(
                slot_load_outcome(
                    old(self).inner@.dayperiod_names,
                    length,
                    spec_fetch_day_period(provider, old(self).locale@, length),
                ),
                length.spec_to_approximate_error_field(),
            ),
            final(self).locale == old(self).locale,
            final(self).backend == old(self).backend,
            old(self).wf() ==> final(self).wf(),
    {
        let error_field = length.to_approximate_error_field();
        self.inner.load_day_period_names(provider, &self.locale, length, error_field)
    }

    /// Loads day-period names of the given width from the bound backend.
    pub fn include_day_period_names(&mut self, length: DayPeriodNameLength) -> (r: Result<
        (),
        PatternLoadError,
    >)
        ensures
            final(self).inner@ == (NamesModel {
                dayperiod_names: slot_after_load(
                    old(self).inner@.dayperiod_names,
                    length,
                    spec_fetch_day_period(&old(self).backend, old(self).locale@, length),
                ),
                ..old(self).inner@
            }),
            r == outcome_result(
                slot_load_outcome(
                    old(self).inner@.dayperiod_names,
                    length,
                    spec_fetch_day_period(&old(self).backend, old(self).locale@, length),
                ),
                length.spec_to_approximate_error_field(),
            ),
            final(self).locale == old(self).locale,
            final(self).backend == old(self).backend,
            old(self).wf() ==> final(self).wf(),
    {
        let error_field = length.to_approximate_error_field();
        self.inner.load_day_period_names(&self.backend, &self.locale, length, error_field)
    }

    /// Loads the shared time-zone essentials from the given provider.
    pub fn load_time_zone_essentials<P: DataBackend + ?Sized>(&mut self, provider: &P) -> (r:
        Result<(), PatternLoadError>)
        ensures
            final(self).locale == old(self).locale,
            final(self).backend == old(self).backend,
            names_monotonic(old(self).inner@, final(self).inner@),
            old(self).wf() ==> final(self).wf(),
            final(self).inner@ == step_zone_essentials(provider, old(self).locale@, old(self).inner@).0,
            r == step_zone_essentials(provider, old(self).locale@, old(self).inner@).1,
    {
        self.inner.load_time_zone_essentials(provider, &self.locale)
    }

    /// Loads the shared time-zone essentials from the bound backend.
    pub fn include_time_zone_essentials(&mut self) -> (r: Result<(), PatternLoadError>)
        ensures
            final(self).locale == old(self).locale,
            final(self).backend == old(self).backend,
            names_monotonic(old(self).inner@, final(self).inner@),
            old(self).wf() ==> final(self).wf(),
            final(self).inner@ == step_zone_essentials(&old(self).backend, old(self).locale@, old(self).inner@).0,
            r == step_zone_essentials(&old(self).backend, old(self).locale@, old(self).inner@).1,
    {
        self.inner.load_time_zone_essentials(&self.backend, &self.locale)
    }

    /// Loads location names from the given provider.
    pub fn load_time_zone_location_names<P: DataBackend + ?Sized>(&mut self, provider: &P) -> (r:
        Result<(), PatternLoadError>)
        ensures
            final(self).locale == old(self).locale,
            final(self).backend == old(self).backend,
            names_monotonic(old(self).inner@, final(self).inner@),
            old(self).wf() ==> final(self).wf(),
            final(self).inner@ == step_locations(provider, old(self).locale@, old(self).inner@).0,
            r == step_locations(provider, old(self).locale@, old(self).inner@).1,
    {
        self.inner.load_time_zone_location_names(provider, &self.locale)
    }

    /// Loads location names from the bound backend.
    pub fn include_time_zone_location_names(&mut self) -> (r: Result<(), PatternLoadError>)
        ensures
            final(self).locale == old(self).locale,
            final(self).backend == old(self).backend,
            names_monotonic(old(self).inner@, final(self).inner@),
            old(self).wf() ==> final(self).wf(),
            final(self).inner@ == step_locations(&old(self).backend, old(self).locale@, old(self).inner@).0,
            r == step_locations(&old(self).backend, old(self).locale@, old(self).inner@).1,
    {
        self.inner.load_time_zone_location_names(&self.backend, &self.locale)
    }

    /// Loads generic non-location long names from the given provider.
    pub fn load_time_zone_generic_long_names<P: DataBackend + ?Sized>(
        &mut self,
        provider: &P,
    ) -> (r: Result<(), PatternLoadError>)
        ensures
            final(self).locale == old(self).locale,
            final(self).backend == old(self).backend,
            names_monotonic(old(self).inner@, final(self).inner@),
            old(self).wf() ==> final(self).wf(),
            final(self).inner@ == step_generic_long(provider, old(self).locale@, old(self).inner@).0,
            r == step_generic_long(provider, old(self).locale@, old(self).inner@).1,
    {
        self.inner.load_time_zone_generic_long_names(provider, &self.locale)
    }

    /// Loads generic non-location long names from the bound backend.
    pub fn include_time_zone_generic_long_names(&mut self) -> (r: Result<(), PatternLoadError>)
        ensures
            final(self).locale == old(self).locale,
            final(self).backend == old(self).backend,
            names_monotonic(old(self).inner@, final(self).inner@),
            old(self).wf() ==> final(self).wf(),
            final(self).inner@ == step_generic_long(&old(self).backend, old(self).locale@, old(self).inner@).0,
            r == step_generic_long(&old(self).backend, old(self).locale@, old(self).inner@).1,
    {
        self.inner.load_time_zone_generic_long_names(&self.backend, &self.locale)
    }

    /// Loads generic non-location short names from the given provider.
    pub fn load_time_zone_generic_short_names<P: DataBackend + ?Sized>(
        &mut self,
        provider: &P,
    ) -> (r: Result<(), PatternLoadError>)
        ensures
            final(self).locale == old(self).locale,
            final(self).backend == old(self).backend,
            names_monotonic(old(self).inner@, final(self).inner@),
            old(self).wf() ==> final(self).wf(),
            final(self).inner@ == step_generic_short(provider, old(self).locale@, old(self).inner@).0,
            r == step_generic_short(provider, old(self).locale@, old(self).inner@).1,
    {
        self.inner.load_time_zone_generic_short_names(provider, &self.locale)
    }

    /// Loads generic non-location short names from the bound backend.
    pub fn include_time_zone_generic_short_names(&mut self) -> (r: Result<(), PatternLoadError>)
        ensures
            final(self).locale == old(self).locale,
            final(self).backend == old(self).backend,
            names_monotonic(old(self).inner@, final(self).inner@),
            old(self).wf() ==> final(self).wf(),
            final(self).inner@ == step_generic_short(&old(self).backend, old(self).locale@, old(self).inner@).0,
            r == step_generic_short(&old(self).backend, old(self).locale@, old(self).inner@).1,
    {
        self.inner.load_time_zone_generic_short_names(&self.backend, &self.locale)
    }

    /// Loads specific non-location long names from the given provider.
    pub fn load_time_zone_specific_long_names<P: DataBackend + ?Sized>(
        &mut self,
        provider: &P,
    ) -> (r: Result<(), PatternLoadError>)
        ensures
            final(self).locale == old(self).locale,
            final(self).backend == old(self).backend,
            names_monotonic(old(self).inner@, final(self).inner@),
            old(self).wf() ==> final(self).wf(),
            final(self).inner@ == step_specific_long(provider, old(self).locale@, old(self).inner@).0,
            r == step_specific_long(provider, old(self).locale@, old(self).inner@).1,
    {
        self.inner.load_time_zone_specific_long_names(provider, &self.locale)
    }

    /// Loads specific non-location long names from the bound backend.
    pub fn include_time_zone_specific_long_names(&mut self) -> (r: Result<(), PatternLoadError>)
        ensures
            final(self).locale == old(self).locale,
            final(self).backend == old(self).backend,
            names_monotonic(old(self).inner@, final(self).inner@),
            old(self).wf() ==> final(self).wf(),
            final(self).inner@ == step_specific_long(&old(self).backend, old(self).locale@, old(self).inner@).0,
            r == step_specific_long(&old(self).backend, old(self).locale@, old(self).inner@).1,
    {
        self.inner.load_time_zone_specific_long_names(&self.backend, &self.locale)
    }

    /// Loads specific non-location short names from the given provider.
    pub fn load_time_zone_specific_short_names<P: DataBackend + ?Sized>(
        &mut self,
        provider: &P,
    ) -> (r: Result<(), PatternLoadError>)
        ensures
            final(self).locale == old(self).locale,
            final(self).backend == old(self).backend,
            names_monotonic(old(self).inner@, final(self).inner@),
            old(self).wf() ==> final(self).wf(),
            final(self).inner@ == step_specific_short(provider, old(self).locale@, old(self).inner@).0,
            r == step_specific_short(provider, old(self).locale@, old(self).inner@).1,
    {
        self.inner.load_time_zone_specific_short_names(provider, &self.locale)
    }

    /// Loads specific non-location short names from the bound backend.
    pub fn include_time_zone_specific_short_names(&mut self) -> (r: Result<(), PatternLoadError>)
        ensures
            final(self).locale == old(self).locale,
            final(self).backend == old(self).backend,
            names_monotonic(old(self).inner@, final(self).inner@),
            old(self).wf() ==> final(self).wf(),
            final(self).inner@ == step_specific_short(&old(self).backend, old(self).locale@, old(self).inner@).0,
            r == step_specific_short(&old(self).backend, old(self).locale@, old(self).inner@).1,
    {
        self.inner.load_time_zone_specific_short_names(&self.backend, &self.locale)
    }

    /// Loads the digit symbols from the given provider, exactly once.
    pub fn load_fixed_decimal_formatter<P: DataBackend + ?Sized>(&mut self, provider: &P) -> (r:
        Result<(), DataError>)
        ensures
            final(self).locale == old(self).locale,
            final(self).backend == old(self).backend,
            names_monotonic(old(self).inner@, final(self).inner@),
            old(self).wf() ==> final(self).wf(),
            final(self).inner@ == step_decimal(provider, old(self).locale@, old(self).inner@).0,
            r == step_decimal(provider, old(self).locale@, old(self).inner@).1,
            r is Ok ==> final(self).inner@.fixed_decimal_formatter is Some,
    {
        self.inner.load_fixed_decimal_formatter(provider, &self.locale)
    }

    /// Loads the digit symbols from the bound backend, exactly once.
    pub fn include_fixed_decimal_formatter(&mut self) -> (r: Result<(), DataError>)
        ensures
            final(self).locale == old(self).locale,
            final(self).backend == old(self).backend,
            names_monotonic(old(self).inner@, final(self).inner@),
            old(self).wf() ==> final(self).wf(),
            final(self).inner@ == step_decimal(&old(self).backend, old(self).locale@, old(self).inner@).0,
            r == step_decimal(&old(self).backend, old(self).locale@, old(self).inner@).1,
            r is Ok ==> final(self).inner@.fixed_decimal_formatter is Some,
    {
        self.inner.load_fixed_decimal_formatter(&self.backend, &self.locale)
    }

    /// Associates this instance with a pattern without checking that the
    /// data the pattern needs is loaded: a zero-cost association for a
    /// caller who has already guaranteed the loading.
    pub fn with_pattern_unchecked<'l>(&'l self, pattern: &'l DateTimePattern) -> (r:
        DateTimePatternFormatter<'l>)
        ensures
            r.names@ == self.inner@,
            r.pattern@ == pattern@,
    {
        DateTimePatternFormatter { pattern, names: &self.inner }
    }

    /// Runs the requirement scanner over the pattern, loading from the
    /// given provider everything the pattern's fields need, and returns
    /// the ready formatter or the first load error.
    pub fn load_for_pattern<'l, P: DataBackend + ?Sized>(
        &'l mut self,
        provider: &P,
        pattern: &'l DateTimePattern,
    ) -> (r: Result<DateTimePatternFormatter<'l>, PatternLoadError>)
        ensures
            old(self).wf() ==> final(self).wf(),
            names_monotonic(old(self).inner@, final(self).inner@),
            final(self).locale == old(self).locale,
            final(self).backend == old(self).backend,
            final(self).inner@ == spec_load_for_pattern(
                provider,
                old(self).locale@,
                old(self).inner@,
                pattern@,
            ).0,
            (match r {
                Ok(_) => spec_load_for_pattern(
                    provider,
                    old(self).locale@,
                    old(self).inner@,
                    pattern@,
                ).1 is Ok,
                Err(e) => spec_load_for_pattern(
                    provider,
                    old(self).locale@,
                    old(self).inner@,
                    pattern@,
                ).1 == Err::<(), PatternLoadError>(e),
            }),
            r matches Ok(fmt) ==> fmt.names@ == final(self).inner@ && fmt.pattern@ == pattern@
                && forall|i: int|
                0 <= i < pattern@.len() ==> (#[trigger] pattern@[i] matches PatternItemModel::Field(
                    f,
                ) ==> field_ready(final(self).inner@, f)),
    {
        match self.inner.load_for_pattern(provider, &self.locale, pattern) {
            Ok(()) => Ok(DateTimePatternFormatter { pattern, names: &self.inner }),
            Err(e) => Err(e),
        }
    }

    /// Runs the requirement scanner against the bound backend.
    pub fn include_for_pattern<'l>(&'l mut self, pattern: &'l DateTimePattern) -> (r: Result<
        DateTimePatternFormatter<'l>,
        PatternLoadError,
    >)
        ensures
            old(self).wf() ==> final(self).wf(),
            names_monotonic(old(self).inner@, final(self).inner@),
            final(self).locale == old(self).locale,
            final(self).backend == old(self).backend,
            r matches Ok(fmt) ==> fmt.names@ == final(self).inner@ && fmt.pattern@ == pattern@
                && forall|i: int|
                0 <= i < pattern@.len() ==> (#[trigger] pattern@[i] matches PatternItemModel::Field(
                    f,
                ) ==> field_ready(final(self).inner@, f)),
    {
        match self.inner.load_for_pattern(&self.backend, &self.locale, pattern) {
            Ok(()) => Ok(DateTimePatternFormatter { pattern, names: &self.inner }),
            Err(e) => Err(e),
        }
    }
}

/// A formatter for one specific pattern: a borrowed, immutable view of
/// the loaded names together with the pattern's items.
#[derive(Debug, Copy, Clone)]
pub struct DateTimePatternFormatter<'l> {
    /// The pattern to interpolate.
    pub pattern: &'l DateTimePattern,
    /// The read-only snapshot of the loaded names.
    pub names: &'l DateTimeNames,
}

impl<'l> DateTimePatternFormatter<'l> {
    /// Interpolates the pattern against one runtime value.  The call
    /// always produces best-effort output for the whole pattern; errors
    /// are carried inside the result, with only the first surfaced.
    pub fn format(&self, input: &RuntimeInput) -> (r: FormattedDateTimePattern)
        requires
            self.names@.wf(),
            input.well_formed(),
        ensures
            r.text@ == spec_format(self.names@, input@, self.pattern@).text,
            parts_view(r.parts@) == spec_format(self.names@, input@, self.pattern@).parts,
            error_view(r.first_error) == spec_format(self.names@, input@, self.pattern@).error,
    {
        format_pattern(self.names, self.pattern, input)
    }
}

} // verus!
