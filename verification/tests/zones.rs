//! Time-zone rendering: offsets, names, and the fallback chains.

use datetime_names::backend::MemoryDataProvider;
use datetime_names::data::{
    DataCategory, DataKey, DataPayload, DecimalSymbols, MzGeneric, MzPeriods, MzSpecific,
    MzSpecificEntry, NameEntry, ZoneEssentials, ZoneLocations,
};
use datetime_names::fields::{
    DateTimePattern, Field, FieldLength, FieldSymbol, PatternItem, TimeZone,
};
use datetime_names::input::{RuntimeInput, ZoneInput, ZoneVariant};
use datetime_names::typed::TypedDateTimeNames;

fn s(text: &str) -> String {
    String::from(text)
}

fn entry(key: &str, name: &str) -> NameEntry {
    NameEntry { key: s(key), name: s(name) }
}

fn field_pattern(symbol: TimeZone, length: FieldLength) -> DateTimePattern {
    DateTimePattern::from_items(vec![
        PatternItem::Field(Field { symbol: FieldSymbol::TimeZone(symbol), length }),
    ])
}

fn zone_input(offset_seconds: i32, zone_id: &str, variant: ZoneVariant) -> RuntimeInput {
    let mut input = RuntimeInput::empty();
    input.zone = Some(ZoneInput {
        offset_seconds: Some(offset_seconds),
        zone_id: Some(s(zone_id)),
        variant: Some(variant),
    });
    input
}

fn british_backend() -> MemoryDataProvider {
    let mut provider = MemoryDataProvider::new();
    provider.insert(
        DataKey { category: DataCategory::ZoneEssentials, attribute: None, locale: s("en") },
        DataPayload::ZoneEssentials(ZoneEssentials {
            offset_zero: s("GMT"),
            offset_prefix: s("GMT"),
            offset_separator: s(":"),
        }),
    );
    provider.insert(
        DataKey { category: DataCategory::MzPeriods, attribute: None, locale: s("") },
        DataPayload::MzPeriods(MzPeriods { entries: vec![entry("gblon", "mgb")] }),
    );
    provider.insert(
        DataKey { category: DataCategory::MzSpecificShort, attribute: None, locale: s("en") },
        DataPayload::MzSpecific(MzSpecific {
            entries: vec![MzSpecificEntry {
                key: s("mgb"),
                standard: Some(s("GMT")),
                daylight: Some(s("BST")),
            }],
        }),
    );
    provider.insert(
        DataKey { category: DataCategory::MzGenericShort, attribute: None, locale: s("en") },
        DataPayload::MzGeneric(MzGeneric { entries: vec![entry("mgb", "UK")] }),
    );
    provider.insert(
        DataKey { category: DataCategory::ZoneLocationsRoot, attribute: None, locale: s("en") },
        DataPayload::ZoneLocations(ZoneLocations {
            format_prefix: s(""),
            format_suffix: s(" Time"),
            entries: vec![entry("gblon", "United Kingdom")],
        }),
    );
    provider.insert(
        DataKey { category: DataCategory::ZoneLocations, attribute: None, locale: s("en") },
        DataPayload::ZoneLocations(ZoneLocations {
            format_prefix: s(""),
            format_suffix: s(" Time"),
            entries: vec![entry("gblon", "UK")],
        }),
    );
    provider.insert(
        DataKey { category: DataCategory::DecimalSymbols, attribute: None, locale: s("en") },
        DataPayload::Decimal(DecimalSymbols {
            digits: (0..10).map(|d| d.to_string()).collect(),
            minus_sign: s("-"),
            decimal_separator: s("."),
        }),
    );
    provider
}

#[test]
fn specific_names_follow_the_variant() {
    let mut names = TypedDateTimeNames::try_new(s("en"), british_backend()).unwrap();
    names.include_time_zone_essentials().unwrap();
    names.include_time_zone_specific_short_names().unwrap();
    let pattern = field_pattern(TimeZone::SpecificNonLocation, FieldLength::One);
    let winter = names
        .with_pattern_unchecked(&pattern)
        .format(&zone_input(0, "gblon", ZoneVariant::Standard));
    assert_eq!(winter.text, s("GMT"));
    assert_eq!(winter.first_error, None);
    let summer = names
        .with_pattern_unchecked(&pattern)
        .format(&zone_input(3600, "gblon", ZoneVariant::Daylight));
    assert_eq!(summer.text, s("BST"));
    assert_eq!(summer.first_error, None);
}

#[test]
fn unknown_zone_falls_back_to_the_offset() {
    let mut names = TypedDateTimeNames::try_new(s("en"), british_backend()).unwrap();
    names.include_time_zone_essentials().unwrap();
    names.include_time_zone_specific_short_names().unwrap();
    let pattern = field_pattern(TimeZone::SpecificNonLocation, FieldLength::One);
    let formatted = names
        .with_pattern_unchecked(&pattern)
        .format(&zone_input(3600, "depot", ZoneVariant::Daylight));
    assert_eq!(formatted.text, s("GMT+1"));
    assert_eq!(formatted.first_error, None);
    let negative = names
        .with_pattern_unchecked(&pattern)
        .format(&zone_input(-28800, "depot", ZoneVariant::Standard));
    assert_eq!(negative.text, s("GMT-8"));
}

#[test]
fn generic_name_falls_back_to_location_then_offset() {
    let mut names = TypedDateTimeNames::try_new(s("en"), british_backend()).unwrap();
    names.include_time_zone_essentials().unwrap();
    names.include_time_zone_generic_short_names().unwrap();
    names.include_time_zone_location_names().unwrap();
    let pattern = field_pattern(TimeZone::GenericNonLocation, FieldLength::One);
    // The zone's metazone has a generic name.
    let named = names
        .with_pattern_unchecked(&pattern)
        .format(&zone_input(0, "gblon", ZoneVariant::Standard));
    assert_eq!(named.text, s("UK"));
    // An unknown zone has neither name nor location: the offset answers.
    let unknown = names
        .with_pattern_unchecked(&pattern)
        .format(&zone_input(5400, "depot", ZoneVariant::Standard));
    assert_eq!(unknown.text, s("GMT+1:30"));
}

#[test]
fn location_format_wraps_the_localized_name() {
    let mut names = TypedDateTimeNames::try_new(s("en"), british_backend()).unwrap();
    names.include_time_zone_essentials().unwrap();
    names.include_time_zone_location_names().unwrap();
    let pattern = field_pattern(TimeZone::Location, FieldLength::Four);
    let formatted = names
        .with_pattern_unchecked(&pattern)
        .format(&zone_input(0, "gblon", ZoneVariant::Standard));
    // The localized table wins over the root table.
    assert_eq!(formatted.text, s("UK Time"));
    assert_eq!(formatted.first_error, None);
}

#[test]
fn bare_zone_id_needs_no_data() {
    let names = TypedDateTimeNames::new_without_number_formatting(
        s("en"),
        datetime_names::backend::EmptyDataProvider,
    );
    let pattern = field_pattern(TimeZone::Location, FieldLength::One);
    let formatted = names
        .with_pattern_unchecked(&pattern)
        .format(&zone_input(0, "gblon", ZoneVariant::Standard));
    assert_eq!(formatted.text, s("gblon"));
    assert_eq!(formatted.first_error, None);
}

#[test]
fn iso_offsets_render_as_ascii() {
    let names = TypedDateTimeNames::new_without_number_formatting(
        s("en"),
        datetime_names::backend::EmptyDataProvider,
    );
    let with_z = field_pattern(TimeZone::IsoWithZ, FieldLength::Five);
    let zero = names
        .with_pattern_unchecked(&with_z)
        .format(&zone_input(0, "gblon", ZoneVariant::Standard));
    assert_eq!(zero.text, s("Z"));
    let plus = names
        .with_pattern_unchecked(&with_z)
        .format(&zone_input(3600, "gblon", ZoneVariant::Daylight));
    assert_eq!(plus.text, s("+01:00"));
    let basic = field_pattern(TimeZone::Iso, FieldLength::One);
    let minus = names
        .with_pattern_unchecked(&basic)
        .format(&zone_input(-28800, "uslax", ZoneVariant::Standard));
    assert_eq!(minus.text, s("-0800"));
    assert_eq!(minus.first_error, None);
}

#[test]
fn localized_offset_long_pads_hours_and_minutes() {
    let mut names = TypedDateTimeNames::try_new(s("en"), british_backend()).unwrap();
    names.include_time_zone_essentials().unwrap();
    let pattern = field_pattern(TimeZone::LocalizedOffset, FieldLength::Four);
    let formatted = names
        .with_pattern_unchecked(&pattern)
        .format(&zone_input(3600, "gblon", ZoneVariant::Daylight));
    assert_eq!(formatted.text, s("GMT+01:00"));
    let zero = names
        .with_pattern_unchecked(&pattern)
        .format(&zone_input(0, "gblon", ZoneVariant::Standard));
    assert_eq!(zero.text, s("GMT"));
}
