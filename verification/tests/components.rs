//! Skeleton components, their identifier strings, and the byte-buffer
//! list.

use datetime_names::combo::Combo;
use datetime_names::options;
use datetime_names::skeleton::{
    CoarseHourCycle, FractionalSecondDigits, FractionalSecondError, NeoCalendarPeriodComponents,
    NeoComponents, NeoDateComponents, NeoDateSkeleton, NeoDateTimeComponents, NeoDateTimeSkeleton,
    NeoSkeleton, NeoSkeletonLength, NeoTimeComponents, NeoTimeZoneSkeleton, NeoTimeZoneStyle,
    NeoTimeSkeleton,
};
use datetime_names::varzero::{VarZeroVecBorrowed, ZeroVecError};

#[test]
fn date_component_id_strings_round_trip() {
    let all = [
        NeoDateComponents::Day,
        NeoDateComponents::MonthDay,
        NeoDateComponents::YearMonthDay,
        NeoDateComponents::DayWeekday,
        NeoDateComponents::MonthDayWeekday,
        NeoDateComponents::YearMonthDayWeekday,
        NeoDateComponents::Weekday,
        NeoDateComponents::Auto,
        NeoDateComponents::AutoWeekday,
    ];
    for components in all {
        assert_eq!(NeoDateComponents::from_id_str(components.id_str()), Some(components));
    }
    assert_eq!(NeoDateComponents::YearMonthDayWeekday.id_str(), "ym0de");
    assert_eq!(NeoDateComponents::from_id_str("nonsense"), None);
}

#[test]
fn time_component_id_strings_round_trip() {
    let all = [
        NeoTimeComponents::Hour,
        NeoTimeComponents::HourMinute,
        NeoTimeComponents::HourMinuteSecond,
        NeoTimeComponents::DayPeriodHour12,
        NeoTimeComponents::Hour12,
        NeoTimeComponents::DayPeriodHour12Minute,
        NeoTimeComponents::Hour12Minute,
        NeoTimeComponents::DayPeriodHour12MinuteSecond,
        NeoTimeComponents::Hour12MinuteSecond,
        NeoTimeComponents::Hour24,
        NeoTimeComponents::Hour24Minute,
        NeoTimeComponents::Hour24MinuteSecond,
        NeoTimeComponents::Auto,
    ];
    for components in all {
        assert_eq!(NeoTimeComponents::from_id_str(components.id_str()), Some(components));
    }
    assert_eq!(
        NeoCalendarPeriodComponents::from_id_str("y0w"),
        Some(NeoCalendarPeriodComponents::YearWeek)
    );
}

#[test]
fn presence_queries() {
    assert!(NeoDateComponents::YearMonthDay.has_year());
    assert!(!NeoDateComponents::MonthDay.has_year());
    assert!(NeoDateComponents::AutoWeekday.has_weekday());
    assert!(!NeoDateComponents::Auto.has_weekday());
    assert!(NeoDateComponents::Weekday.has_weekday());
    assert!(!NeoDateComponents::Weekday.has_day());
    assert!(NeoCalendarPeriodComponents::YearMonth.has_month());
    assert!(!NeoCalendarPeriodComponents::Year.has_month());
    assert!(NeoTimeComponents::Hour.has_hour());
    assert!(!NeoTimeComponents::Hour24.has_minute());
    assert!(NeoTimeComponents::Hour12MinuteSecond.has_second());
    let composite = NeoComponents::DateTime(
        NeoDateComponents::YearMonthDayWeekday,
        NeoTimeComponents::Hour24Minute,
    );
    assert!(composite.has_year());
    assert!(composite.has_weekday());
    assert!(composite.has_minute());
    assert!(!composite.has_second());
    assert!(!NeoComponents::CalendarPeriod(NeoCalendarPeriodComponents::YearMonth).has_day());
}

#[test]
fn composite_override_id_strings() {
    let hm = NeoComponents::DateTime(NeoDateComponents::Weekday, NeoTimeComponents::HourMinute);
    assert_eq!(hm.id_str(), Some("ejm"));
    assert_eq!(NeoComponents::from_id_str("ejms"),
        Some(NeoComponents::DateTime(
            NeoDateComponents::Weekday,
            NeoTimeComponents::HourMinuteSecond,
        )));
    assert_eq!(NeoComponents::Date(NeoDateComponents::Day).id_str(), None);
    assert_eq!(NeoComponents::from_id_str("d"), None);
}

#[test]
fn hour_cycle_resolution() {
    assert_eq!(
        NeoTimeComponents::HourMinute.with_hour_cycle(CoarseHourCycle::H11H12),
        NeoTimeComponents::Hour12Minute
    );
    assert_eq!(
        NeoTimeComponents::Hour.with_hour_cycle(CoarseHourCycle::H23H24),
        NeoTimeComponents::Hour24
    );
    assert_eq!(
        NeoTimeComponents::Hour12.with_hour_cycle(CoarseHourCycle::H23H24),
        NeoTimeComponents::Hour12
    );
}

#[test]
fn skeleton_builders() {
    let date = NeoDateSkeleton::for_length_and_components(
        NeoSkeletonLength::Long,
        NeoDateComponents::YearMonthDay,
    );
    assert!(date.alignment.is_none());
    assert!(date.year_style.is_none());
    let time = NeoTimeSkeleton::for_length_and_components(
        NeoSkeletonLength::Short,
        NeoTimeComponents::HourMinute,
    );
    assert!(time.fractional_second_digits.is_none());
    let zone = NeoTimeZoneSkeleton::for_length_and_components(
        NeoSkeletonLength::Short,
        NeoTimeZoneStyle::Generic,
    );
    assert_eq!(zone.style, NeoTimeZoneStyle::Generic);
    let skeleton = NeoSkeleton::for_length_and_components(
        NeoSkeletonLength::Medium,
        NeoComponents::Date(NeoDateComponents::Auto),
    );
    assert_eq!(skeleton.length, NeoSkeletonLength::Medium);
}

#[test]
fn classic_length_conversions() {
    assert_eq!(NeoSkeletonLength::Long.to_date_style(), options::Date::Long);
    assert_eq!(NeoSkeletonLength::Long.to_time_style(), options::Time::Medium);
    assert_eq!(NeoSkeletonLength::Short.to_time_style(), options::Time::Short);
    let full = NeoDateSkeleton::from_date_length(options::Date::Full);
    assert_eq!(full.components, NeoDateComponents::AutoWeekday);
    assert_eq!(full.length, NeoSkeletonLength::Long);
    let short = NeoDateSkeleton::from_date_length(options::Date::Short);
    assert_eq!(short.components, NeoDateComponents::Auto);
    assert_eq!(short.length, NeoSkeletonLength::Short);
    let combined =
        NeoDateTimeSkeleton::from_date_time_length(options::Date::Medium, options::Time::Short);
    match combined.components {
        NeoDateTimeComponents::DateTime(d, t) => {
            assert_eq!(d, NeoDateComponents::Auto);
            assert_eq!(t, NeoTimeComponents::HourMinute);
        }
        other => panic!("expected combined date and time components, got {other:?}"),
    }
}

#[test]
fn fractional_second_digits_convert_both_ways() {
    for value in 0..=9u8 {
        let digits = FractionalSecondDigits::try_from_u8(value).unwrap();
        assert_eq!(digits.to_u8(), value);
    }
    assert_eq!(
        FractionalSecondDigits::try_from_u8(10),
        Err(FractionalSecondError::OutOfRange)
    );
}

#[test]
fn combo_keeps_both_halves() {
    let combo = Combo::new(NeoDateComponents::YearMonthDay, NeoTimeZoneStyle::Specific);
    assert_eq!(combo.dt(), NeoDateComponents::YearMonthDay);
    assert_eq!(combo.z(), NeoTimeZoneStyle::Specific);
}

fn buffer(elements: &[&[u8]]) -> Vec<u8> {
    let mut out = Vec::new();
    out.extend_from_slice(&(elements.len() as u32).to_le_bytes());
    let mut offset: u32 = 0;
    for element in elements {
        out.extend_from_slice(&offset.to_le_bytes());
        offset += element.len() as u32;
    }
    for element in elements {
        out.extend_from_slice(element);
    }
    out
}

#[test]
fn varzerovec_parses_and_reads_back() {
    let bytes = buffer(&[b"one", b"", b"three"]);
    let parsed = VarZeroVecBorrowed::parse_byte_slice(&bytes).unwrap();
    assert_eq!(parsed.len(), 3);
    assert!(!parsed.is_empty());
    assert_eq!(parsed.get(0), Some(&b"one"[..]));
    assert_eq!(parsed.get(1), Some(&b""[..]));
    assert_eq!(parsed.get(2), Some(&b"three"[..]));
    assert_eq!(parsed.get(3), None);
    assert_eq!(parsed.entire_slice(), &bytes[..]);
    let owned = parsed.to_vec();
    assert_eq!(owned, vec![b"one".to_vec(), b"".to_vec(), b"three".to_vec()]);
}

#[test]
fn varzerovec_empty_and_new() {
    let empty = VarZeroVecBorrowed::parse_byte_slice(&[]).unwrap();
    assert_eq!(empty.len(), 0);
    assert!(empty.is_empty());
    let fresh = VarZeroVecBorrowed::new();
    assert!(fresh.is_empty());
}

#[test]
fn varzerovec_rejects_malformed_buffers() {
    // Too short to hold its own count.
    assert!(matches!(
        VarZeroVecBorrowed::parse_byte_slice(&[1, 0]),
        Err(ZeroVecError::VarZeroVecFormatError)
    ));
    // Claims more offsets than the buffer holds.
    assert!(matches!(
        VarZeroVecBorrowed::parse_byte_slice(&[9, 0, 0, 0, 1, 2]),
        Err(ZeroVecError::VarZeroVecFormatError)
    ));
    // An offset pointing past the element region.
    let mut bytes = buffer(&[b"ab"]);
    bytes[4] = 9;
    assert!(matches!(
        VarZeroVecBorrowed::parse_byte_slice(&bytes),
        Err(ZeroVecError::VarZeroVecFormatError)
    ));
    // Offsets out of order.
    let mut unordered = buffer(&[b"ab", b"cd"]);
    unordered[4] = 3;
    assert!(matches!(
        VarZeroVecBorrowed::parse_byte_slice(&unordered),
        Err(ZeroVecError::VarZeroVecFormatError)
    ));
}
