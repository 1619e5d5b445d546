//! Loading, caching, and the conflict rules of the name containers.

use datetime_names::backend::{DataBackend, EmptyDataProvider, MemoryDataProvider};
use datetime_names::data::{
    DataCategory, DataKey, DataPayload, DecimalSymbols, MonthNames, WeekdayNames,
};
use datetime_names::errors::{DataError, PatternLoadError};
use datetime_names::length::MonthNameLength;
use datetime_names::typed::TypedDateTimeNames;

fn s(text: &str) -> String {
    String::from(text)
}

fn month_table(names: &[&str]) -> DataPayload {
    DataPayload::Month(MonthNames::Linear(names.iter().map(|n| s(n)).collect()))
}

fn backend_with_months() -> MemoryDataProvider {
    let mut provider = MemoryDataProvider::new();
    provider.insert(
        DataKey {
            category: DataCategory::MonthNames,
            attribute: Some(MonthNameLength::Wide.to_attributes()),
            locale: s("en"),
        },
        month_table(&[
            "January", "February", "March", "April", "May", "June", "July", "August",
            "September", "October", "November", "December",
        ]),
    );
    provider.insert(
        DataKey {
            category: DataCategory::MonthNames,
            attribute: Some(MonthNameLength::Abbreviated.to_attributes()),
            locale: s("en"),
        },
        month_table(&[
            "Jan", "Feb", "Mar", "Apr", "May", "Jun", "Jul", "Aug", "Sep", "Oct", "Nov", "Dec",
        ]),
    );
    provider
}

#[test]
fn include_month_names_is_idempotent() {
    let mut names = TypedDateTimeNames::new_without_number_formatting(s("en"), backend_with_months());
    assert!(names.include_month_names(MonthNameLength::Wide).is_ok());
    // A repeat request with the same width succeeds again.
    assert!(names.include_month_names(MonthNameLength::Wide).is_ok());
    // A different width or context is a conflict.
    assert!(matches!(
        names.include_month_names(MonthNameLength::Abbreviated),
        Err(PatternLoadError::ConflictingField(_))
    ));
    assert!(matches!(
        names.include_month_names(MonthNameLength::StandaloneWide),
        Err(PatternLoadError::ConflictingField(_))
    ));
    // And the original width still answers.
    assert!(names.include_month_names(MonthNameLength::Wide).is_ok());
}

#[test]
fn reload_after_try_new_is_idempotent() {
    let mut provider = backend_with_months();
    provider.insert(
        DataKey { category: DataCategory::DecimalSymbols, attribute: None, locale: s("en") },
        DataPayload::Decimal(DecimalSymbols {
            digits: (0..10).map(|d| d.to_string()).collect(),
            minus_sign: s("-"),
            decimal_separator: s("."),
        }),
    );
    let mut names = TypedDateTimeNames::try_new(s("en"), provider).unwrap();
    assert!(names.include_month_names(MonthNameLength::Wide).is_ok());
    assert!(names.include_month_names(MonthNameLength::Wide).is_ok());
    assert!(matches!(
        names.include_month_names(MonthNameLength::Abbreviated),
        Err(PatternLoadError::ConflictingField(_))
    ));
}

#[test]
fn empty_provider_reports_not_found() {
    let mut names = TypedDateTimeNames::new_without_number_formatting(s("en"), EmptyDataProvider);
    match names.include_month_names(MonthNameLength::Wide) {
        Err(PatternLoadError::Data(DataError::MarkerNotFound, _)) => {}
        other => panic!("expected a not-found data error, got {other:?}"),
    }
    // A failed load leaves the slot empty, so the same request may be
    // retried against a better provider.
    let provider = backend_with_months();
    assert!(names.load_month_names(&provider, MonthNameLength::Wide).is_ok());
}

#[test]
fn mismatched_payload_is_malformed() {
    let mut provider = MemoryDataProvider::new();
    provider.insert(
        DataKey {
            category: DataCategory::MonthNames,
            attribute: Some(MonthNameLength::Wide.to_attributes()),
            locale: s("en"),
        },
        DataPayload::Weekday(WeekdayNames { names: vec![s("Sun")] }),
    );
    let mut names = TypedDateTimeNames::new_without_number_formatting(s("en"), provider);
    match names.include_month_names(MonthNameLength::Wide) {
        Err(PatternLoadError::Data(DataError::Malformed, _)) => {}
        other => panic!("expected a malformed data error, got {other:?}"),
    }
}

#[test]
fn memory_provider_answers_front_to_back() {
    let key = DataKey {
        category: DataCategory::MonthNames,
        attribute: Some(MonthNameLength::Wide.to_attributes()),
        locale: s("en"),
    };
    let mut provider = MemoryDataProvider::new();
    provider.insert(key.clone(), month_table(&["first"]));
    provider.insert(key.clone(), month_table(&["second"]));
    match provider.fetch(&key) {
        Ok(DataPayload::Month(MonthNames::Linear(v))) => assert_eq!(v, vec![s("first")]),
        other => panic!("expected the first stored payload, got {other:?}"),
    }
    let missing = DataKey {
        category: DataCategory::WeekdayNames,
        attribute: None,
        locale: s("en"),
    };
    assert!(matches!(provider.fetch(&missing), Err(DataError::MarkerNotFound)));
}

#[test]
fn try_new_loads_digit_symbols_eagerly() {
    let mut provider = MemoryDataProvider::new();
    provider.insert(
        DataKey { category: DataCategory::DecimalSymbols, attribute: None, locale: s("en") },
        DataPayload::Decimal(DecimalSymbols {
            digits: (0..10).map(|d| d.to_string()).collect(),
            minus_sign: s("-"),
            decimal_separator: s("."),
        }),
    );
    assert!(TypedDateTimeNames::try_new(s("en"), provider).is_ok());
    // Without the digit symbols in the backend, eager construction fails.
    assert!(matches!(
        TypedDateTimeNames::try_new(s("en"), EmptyDataProvider),
        Err(DataError::MarkerNotFound)
    ));
}

#[test]
fn digit_symbols_must_hold_ten_digits() {
    let mut provider = MemoryDataProvider::new();
    provider.insert(
        DataKey { category: DataCategory::DecimalSymbols, attribute: None, locale: s("en") },
        DataPayload::Decimal(DecimalSymbols {
            digits: vec![s("0"), s("1")],
            minus_sign: s("-"),
            decimal_separator: s("."),
        }),
    );
    assert!(matches!(
        TypedDateTimeNames::try_new(s("en"), provider),
        Err(DataError::Malformed)
    ));
}
