//! The data payloads a backend can deliver, and their mathematical models.
//!
//! Every payload is plain data: vectors of strings and small structs.  The
//! model of a payload replaces each string by its character sequence, so
//! that contracts can speak about the names themselves.

use vstd::prelude::*;
use crate::length::NameAttribute;

verus! {

/// The character sequences of a vector of strings.
pub open spec fn strings_view(v: Seq<String>) -> Seq<Seq<char>> {
    v.map(|i: int, s: String| s@)
}

/// One entry of a map from a string key to a display name.
#[derive(Debug)]
pub struct NameEntry {
    pub key: String,
    pub name: String,
}

/// The model of a [`NameEntry`].
pub struct NameEntryModel {
    pub key: Seq<char>,
    pub name: Seq<char>,
}

impl View for NameEntry {
    type V = NameEntryModel;

    open spec fn view(&self) -> NameEntryModel {
        NameEntryModel { key: self.key@, name: self.name@ }
    }
}

/// The character sequences of a vector of name entries.
pub open spec fn entries_view(v: Seq<NameEntry>) -> Seq<NameEntryModel> {
    v.map(|i: int, e: NameEntry| e@)
}

/// Year names: either a fixed-position era table, a map from era codes to
/// era names, or a cyclic-year table indexed by the one-based cyclic year.
#[derive(Debug)]
pub enum YearNames {
    /// Era names indexed by a fixed era index, for calendars with a fixed
    /// set of eras.
    FixedEras(Vec<String>),
    /// Era names keyed by era code, for calendars with variable eras.
    VariableEras(Vec<NameEntry>),
    /// Cyclic year names indexed by the cyclic year number minus one.
    Cyclic(Vec<String>),
}

/// The model of a [`YearNames`] payload.
pub enum YearNamesModel {
    FixedEras(Seq<Seq<char>>),
    VariableEras(Seq<NameEntryModel>),
    Cyclic(Seq<Seq<char>>),
}

impl View for YearNames {
    type V = YearNamesModel;

    open spec fn view(&self) -> YearNamesModel {
        match self {
            YearNames::FixedEras(v) => YearNamesModel::FixedEras(strings_view(v@)),
            YearNames::VariableEras(v) => YearNamesModel::VariableEras(entries_view(v@)),
            YearNames::Cyclic(v) => YearNamesModel::Cyclic(strings_view(v@)),
        }
    }
}

/// Month names in one of three table layouts.
#[derive(Debug)]
pub enum MonthNames {
    /// A plain table indexed by the month number minus one; such a table
    /// has no names for leap months.
    Linear(Vec<String>),
    /// A table of `n` regular month names followed by the names of their
    /// leap variants: regular month `k` is entry `k - 1` and its leap
    /// variant entry `n + k - 1`, where `n` is half the table length.
    LeapLinear(Vec<String>),
    /// No distinct leap-month names exist: months render numerically, and
    /// a leap month renders as the carried marker text followed by the
    /// month number.
    LeapNumeric(String),
}

/// The model of a [`MonthNames`] payload.
pub enum MonthNamesModel {
    Linear(Seq<Seq<char>>),
    LeapLinear(Seq<Seq<char>>),
    LeapNumeric(Seq<char>),
}

impl View for MonthNames {
    type V = MonthNamesModel;

    open spec fn view(&self) -> MonthNamesModel {
        match self {
            MonthNames::Linear(v) => MonthNamesModel::Linear(strings_view(v@)),
            MonthNames::LeapLinear(v) => MonthNamesModel::LeapLinear(strings_view(v@)),
            MonthNames::LeapNumeric(s) => MonthNamesModel::LeapNumeric(s@),
        }
    }
}

/// Weekday names: a table of seven entries beginning with the name of
/// Sunday, indexed by the ISO weekday number modulo seven.
#[derive(Debug)]
pub struct WeekdayNames {
    pub names: Vec<String>,
}

/// The model of a [`WeekdayNames`] payload.
pub struct WeekdayNamesModel {
    pub names: Seq<Seq<char>>,
}

impl View for WeekdayNames {
    type V = WeekdayNamesModel;

    open spec fn view(&self) -> WeekdayNamesModel {
        WeekdayNamesModel { names: strings_view(self.names@) }
    }
}

/// Day-period names.  The am and pm names are expected; the noon and
/// midnight names exist only in locales that use them.
#[derive(Debug)]
pub struct DayPeriodNames {
    pub am: Option<String>,
    pub pm: Option<String>,
    pub noon: Option<String>,
    pub midnight: Option<String>,
}

/// The model of a [`DayPeriodNames`] payload.
pub struct DayPeriodNamesModel {
    pub am: Option<Seq<char>>,
    pub pm: Option<Seq<char>>,
    pub noon: Option<Seq<char>>,
    pub midnight: Option<Seq<char>>,
}

/// The character sequence of an optional string.
pub open spec fn opt_string_view(v: Option<String>) -> Option<Seq<char>> {
    match v {
        Some(s) => Some(s@),
        None => None,
    }
}

impl View for DayPeriodNames {
    type V = DayPeriodNamesModel;

    open spec fn view(&self) -> DayPeriodNamesModel {
        DayPeriodNamesModel {
            am: opt_string_view(self.am),
            pm: opt_string_view(self.pm),
            noon: opt_string_view(self.noon),
            midnight: opt_string_view(self.midnight),
        }
    }
}

/// Essential patterns for time-zone formatting: the pieces from which the
/// localized offset format is assembled.
#[derive(Debug)]
pub struct ZoneEssentials {
    /// The name of the zero offset, such as "GMT".
    pub offset_zero: String,
    /// The prefix of a non-zero localized offset, such as "GMT".
    pub offset_prefix: String,
    /// The separator between offset hours and minutes, such as ":".
    pub offset_separator: String,
}

/// The model of a [`ZoneEssentials`] payload.
pub struct ZoneEssentialsModel {
    pub offset_zero: Seq<char>,
    pub offset_prefix: Seq<char>,
    pub offset_separator: Seq<char>,
}

impl View for ZoneEssentials {
    type V = ZoneEssentialsModel;

    open spec fn view(&self) -> ZoneEssentialsModel {
        ZoneEssentialsModel {
            offset_zero: self.offset_zero@,
            offset_prefix: self.offset_prefix@,
            offset_separator: self.offset_separator@,
        }
    }
}

/// Location names for time-zone formatting: a map from zone identifiers to
/// location names, and the pieces of the location format that surround the
/// name, as in "" and " Time" around "United Kingdom".
#[derive(Debug)]
pub struct ZoneLocations {
    pub format_prefix: String,
    pub format_suffix: String,
    pub entries: Vec<NameEntry>,
}

/// The model of a [`ZoneLocations`] payload.
pub struct ZoneLocationsModel {
    pub format_prefix: Seq<char>,
    pub format_suffix: Seq<char>,
    pub entries: Seq<NameEntryModel>,
}

impl View for ZoneLocations {
    type V = ZoneLocationsModel;

    open spec fn view(&self) -> ZoneLocationsModel {
        ZoneLocationsModel {
            format_prefix: self.format_prefix@,
            format_suffix: self.format_suffix@,
            entries: entries_view(self.entries@),
        }
    }
}

/// Exemplar-city names: a map from zone identifiers to city names.
#[derive(Debug)]
pub struct ZoneExemplars {
    pub entries: Vec<NameEntry>,
}

/// The model of a [`ZoneExemplars`] payload.
pub struct ZoneExemplarsModel {
    pub entries: Seq<NameEntryModel>,
}

impl View for ZoneExemplars {
    type V = ZoneExemplarsModel;

    open spec fn view(&self) -> ZoneExemplarsModel {
        ZoneExemplarsModel { entries: entries_view(self.entries@) }
    }
}

/// Generic non-location names, keyed by a zone identifier (an override for
/// one zone) or by a metazone identifier.
#[derive(Debug)]
pub struct MzGeneric {
    pub entries: Vec<NameEntry>,
}

/// The model of an [`MzGeneric`] payload.
pub struct MzGenericModel {
    pub entries: Seq<NameEntryModel>,
}

impl View for MzGeneric {
    type V = MzGenericModel;

    open spec fn view(&self) -> MzGenericModel {
        MzGenericModel { entries: entries_view(self.entries@) }
    }
}

/// One entry of a specific non-location name table: the names of the
/// standard and the daylight variant of a zone or metazone.
#[derive(Debug)]
pub struct MzSpecificEntry {
    pub key: String,
    pub standard: Option<String>,
    pub daylight: Option<String>,
}

/// The model of an [`MzSpecificEntry`].
pub struct MzSpecificEntryModel {
    pub key: Seq<char>,
    pub standard: Option<Seq<char>>,
    pub daylight: Option<Seq<char>>,
}

impl View for MzSpecificEntry {
    type V = MzSpecificEntryModel;

    open spec fn view(&self) -> MzSpecificEntryModel {
        MzSpecificEntryModel {
            key: self.key@,
            standard: opt_string_view(self.standard),
            daylight: opt_string_view(self.daylight),
        }
    }
}

/// Specific non-location names, keyed like [`MzGeneric`].
#[derive(Debug)]
pub struct MzSpecific {
    pub entries: Vec<MzSpecificEntry>,
}

/// The model of an [`MzSpecific`] payload.
pub struct MzSpecificModel {
    pub entries: Seq<MzSpecificEntryModel>,
}

impl View for MzSpecific {
    type V = MzSpecificModel;

    open spec fn view(&self) -> MzSpecificModel {
        MzSpecificModel { entries: self.entries@.map(|i: int, e: MzSpecificEntry| e@) }
    }
}

/// The metazone lookup: a map from zone identifiers to the identifier of
/// the metazone whose names the zone shares.
#[derive(Debug)]
pub struct MzPeriods {
    pub entries: Vec<NameEntry>,
}

/// The model of an [`MzPeriods`] payload.
pub struct MzPeriodsModel {
    pub entries: Seq<NameEntryModel>,
}

impl View for MzPeriods {
    type V = MzPeriodsModel;

    open spec fn view(&self) -> MzPeriodsModel {
        MzPeriodsModel { entries: entries_view(self.entries@) }
    }
}

/// Digit symbols for numeric formatting: the ten digits of the locale in
/// value order, and the minus sign.
#[derive(Debug)]
pub struct DecimalSymbols {
    pub digits: Vec<String>,
    pub minus_sign: String,
    pub decimal_separator: String,
}

/// The model of a [`DecimalSymbols`] payload.
pub struct DecimalSymbolsModel {
    pub digits: Seq<Seq<char>>,
    pub minus_sign: Seq<char>,
    pub decimal_separator: Seq<char>,
}

impl View for DecimalSymbols {
    type V = DecimalSymbolsModel;

    open spec fn view(&self) -> DecimalSymbolsModel {
        DecimalSymbolsModel {
            digits: strings_view(self.digits@),
            minus_sign: self.minus_sign@,
            decimal_separator: self.decimal_separator@,
        }
    }
}

/// Every category of data the engine can request from a backend.
#[derive(Debug, Copy, Clone, PartialEq, Eq, Structural)]
pub enum DataCategory {
    YearNames,
    MonthNames,
    WeekdayNames,
    DayPeriodNames,
    ZoneEssentials,
    ZoneLocationsRoot,
    ZoneLocations,
    ZoneExemplarsRoot,
    ZoneExemplars,
    MzGenericLong,
    MzGenericShort,
    MzSpecificLong,
    MzSpecificShort,
    MzPeriods,
    DecimalSymbols,
}

/// A request key: the category, the width-and-context attribute for the
/// categories that have one, and the resolved locale.
#[derive(Debug, Clone)]
pub struct DataKey {
    pub category: DataCategory,
    pub attribute: Option<NameAttribute>,
    pub locale: String,
}

/// The model of a [`DataKey`].
pub struct DataKeyModel {
    pub category: DataCategory,
    pub attribute: Option<NameAttribute>,
    pub locale: Seq<char>,
}

impl View for DataKey {
    type V = DataKeyModel;

    open spec fn view(&self) -> DataKeyModel {
        DataKeyModel {
            category: self.category,
            attribute: self.attribute,
            locale: self.locale@,
        }
    }
}

/// A payload delivered by a backend for one fetch.
#[derive(Debug)]
pub enum DataPayload {
    Year(YearNames),
    Month(MonthNames),
    Weekday(WeekdayNames),
    DayPeriod(DayPeriodNames),
    ZoneEssentials(ZoneEssentials),
    ZoneLocations(ZoneLocations),
    ZoneExemplars(ZoneExemplars),
    MzGeneric(MzGeneric),
    MzSpecific(MzSpecific),
    MzPeriods(MzPeriods),
    Decimal(DecimalSymbols),
}

/// The model of a [`DataPayload`].
pub enum DataPayloadModel {
    Year(YearNamesModel),
    Month(MonthNamesModel),
    Weekday(WeekdayNamesModel),
    DayPeriod(DayPeriodNamesModel),
    ZoneEssentials(ZoneEssentialsModel),
    ZoneLocations(ZoneLocationsModel),
    ZoneExemplars(ZoneExemplarsModel),
    MzGeneric(MzGenericModel),
    MzSpecific(MzSpecificModel),
    MzPeriods(MzPeriodsModel),
    Decimal(DecimalSymbolsModel),
}

impl View for DataPayload {
    type V = DataPayloadModel;

    open spec fn view(&self) -> DataPayloadModel {
        match self {
            DataPayload::Year(p) => DataPayloadModel::Year(p@),
            DataPayload::Month(p) => DataPayloadModel::Month(p@),
            DataPayload::Weekday(p) => DataPayloadModel::Weekday(p@),
            DataPayload::DayPeriod(p) => DataPayloadModel::DayPeriod(p@),
            DataPayload::ZoneEssentials(p) => DataPayloadModel::ZoneEssentials(p@),
            DataPayload::ZoneLocations(p) => DataPayloadModel::ZoneLocations(p@),
            DataPayload::ZoneExemplars(p) => DataPayloadModel::ZoneExemplars(p@),
            DataPayload::MzGeneric(p) => DataPayloadModel::MzGeneric(p@),
            DataPayload::MzSpecific(p) => DataPayloadModel::MzSpecific(p@),
            DataPayload::MzPeriods(p) => DataPayloadModel::MzPeriods(p@),
            DataPayload::Decimal(p) => DataPayloadModel::Decimal(p@),
        }
    }
}

/// Copies a vector of strings, keeping its model.
fn clone_strings(v: &Vec<String>) -> (r: Vec<String>)
    ensures
        strings_view(r@) == strings_view(v@),
{
    let mut r: Vec<String> = Vec::new();
    let mut i: usize = 0;
    while i < v.len()
        invariant
            i <= v.len(),
            r@.len() == i as int,
            forall|j: int| 0 <= j < i ==> r@[j]@ == v@[j]@,
        decreases v.len() - i,
    {
        r.push(v[i].clone());
        i += 1;
    }
    proof {
        assert(strings_view(r@) =~= strings_view(v@));
    }
    r
}

/// Copies an optional string, keeping its model.
fn clone_opt_string(v: &Option<String>) -> (r: Option<String>)
    ensures
        opt_string_view(r) == opt_string_view(*v),
{
    match v {
        Some(s) => Some(s.clone()),
        None => None,
    }
}

impl Clone for NameEntry {
    fn clone(&self) -> (r: Self)
        ensures
            r@ == self@,
    {
        NameEntry { key: self.key.clone(), name: self.name.clone() }
    }
}

/// Copies a vector of name entries, keeping its model.
fn clone_entries(v: &Vec<NameEntry>) -> (r: Vec<NameEntry>)
    ensures
        entries_view(r@) == entries_view(v@),
{
    let mut r: Vec<NameEntry> = Vec::new();
    let mut i: usize = 0;
    while i < v.len()
        invariant
            i <= v.len(),
            r@.len() == i as int,
            forall|j: int| 0 <= j < i ==> r@[j]@ == v@[j]@,
        decreases v.len() - i,
    {
        r.push(v[i].clone());
        i += 1;
    }
    proof {
        assert(entries_view(r@) =~= entries_view(v@));
    }
    r
}

impl Clone for YearNames {
    fn clone(&self) -> (r: Self)
        ensures
            r@ == self@,
    {
        match self {
            YearNames::FixedEras(v) => YearNames::FixedEras(clone_strings(v)),
            YearNames::VariableEras(v) => YearNames::VariableEras(clone_entries(v)),
            YearNames::Cyclic(v) => YearNames::Cyclic(clone_strings(v)),
        }
    }
}

impl Clone for MonthNames {
    fn clone(&self) -> (r: Self)
        ensures
            r@ == self@,
    {
        match self {
            MonthNames::Linear(v) => MonthNames::Linear(clone_strings(v)),
            MonthNames::LeapLinear(v) => MonthNames::LeapLinear(clone_strings(v)),
            MonthNames::LeapNumeric(s) => MonthNames::LeapNumeric(s.clone()),
        }
    }
}

impl Clone for WeekdayNames {
    fn clone(&self) -> (r: Self)
        ensures
            r@ == self@,
    {
        WeekdayNames { names: clone_strings(&self.names) }
    }
}

impl Clone for DayPeriodNames {
    fn clone(&self) -> (r: Self)
        ensures
            r@ == self@,
    {
        DayPeriodNames {
            am: clone_opt_string(&self.am),
            pm: clone_opt_string(&self.pm),
            noon: clone_opt_string(&self.noon),
            midnight: clone_opt_string(&self.midnight),
        }
    }
}

impl Clone for ZoneEssentials {
    fn clone(&self) -> (r: Self)
        ensures
            r@ == self@,
    {
        ZoneEssentials {
            offset_zero: self.offset_zero.clone(),
            offset_prefix: self.offset_prefix.clone(),
            offset_separator: self.offset_separator.clone(),
        }
    }
}

impl Clone for ZoneLocations {
    fn clone(&self) -> (r: Self)
        ensures
            r@ == self@,
    {
        ZoneLocations {
            format_prefix: self.format_prefix.clone(),
            format_suffix: self.format_suffix.clone(),
            entries: clone_entries(&self.entries),
        }
    }
}

impl Clone for ZoneExemplars {
    fn clone(&self) -> (r: Self)
        ensures
            r@ == self@,
    {
        ZoneExemplars { entries: clone_entries(&self.entries) }
    }
}

impl Clone for MzGeneric {
    fn clone(&self) -> (r: Self)
        ensures
            r@ == self@,
    {
        MzGeneric { entries: clone_entries(&self.entries) }
    }
}

impl Clone for MzSpecificEntry {
    fn clone(&self) -> (r: Self)
        ensures
            r@ == self@,
    {
        MzSpecificEntry {
            key: self.key.clone(),
            standard: clone_opt_string(&self.standard),
            daylight: clone_opt_string(&self.daylight),
        }
    }
}

impl Clone for MzSpecific {
    fn clone(&self) -> (r: Self)
        ensures
            r@ == self@,
    {
        let v = &self.entries;
        let mut entries: Vec<MzSpecificEntry> = Vec::new();
        let mut i: usize = 0;
        while i < v.len()
            invariant
                i <= v.len(),
                entries@.len() == i as int,
                forall|j: int| 0 <= j < i ==> entries@[j]@ == v@[j]@,
            decreases v.len() - i,
        {
            entries.push(v[i].clone());
            i += 1;
        }
        let r = MzSpecific { entries };
        proof {
            assert(r@.entries =~= self@.entries);
        }
        r
    }
}

impl Clone for MzPeriods {
    fn clone(&self) -> (r: Self)
        ensures
            r@ == self@,
    {
        MzPeriods { entries: clone_entries(&self.entries) }
    }
}

impl Clone for DecimalSymbols {
    fn clone(&self) -> (r: Self)
        ensures
            r@ == self@,
    {
        DecimalSymbols {
            digits: clone_strings(&self.digits),
            minus_sign: self.minus_sign.clone(),
            decimal_separator: self.decimal_separator.clone(),
        }
    }
}

impl Clone for DataPayload {
    fn clone(&self) -> (r: Self)
        ensures
            r@ == self@,
    {
        match self {
            DataPayload::Year(p) => DataPayload::Year(p.clone()),
            DataPayload::Month(p) => DataPayload::Month(p.clone()),
            DataPayload::Weekday(p) => DataPayload::Weekday(p.clone()),
            DataPayload::DayPeriod(p) => DataPayload::DayPeriod(p.clone()),
            DataPayload::ZoneEssentials(p) => DataPayload::ZoneEssentials(p.clone()),
            DataPayload::ZoneLocations(p) => DataPayload::ZoneLocations(p.clone()),
            DataPayload::ZoneExemplars(p) => DataPayload::ZoneExemplars(p.clone()),
            DataPayload::MzGeneric(p) => DataPayload::MzGeneric(p.clone()),
            DataPayload::MzSpecific(p) => DataPayload::MzSpecific(p.clone()),
            DataPayload::MzPeriods(p) => DataPayload::MzPeriods(p.clone()),
            DataPayload::Decimal(p) => DataPayload::Decimal(p.clone()),
        }
    }
}

} // verus!
