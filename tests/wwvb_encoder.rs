use wwvb::bcd_encoder::BcdError;
use wwvb::calendar::{is_leap_year, CalendarTime};
use wwvb::symbol::Symbol;
use wwvb::wwvb_encoder::WwvbEncoder;

use Symbol::{High as H, Low as L, Mark as M};

const MARKER_POSITIONS: [usize; 7] = [0, 9, 19, 29, 39, 49, 59];

fn frame(year: i32, day_of_year: u32, hour: u32, minute: u32) -> Vec<Symbol> {
    let t = CalendarTime::new(year, day_of_year, hour, minute).unwrap();
    WwvbEncoder::encode(t).unwrap()
}

#[test]
fn frame_on_leap_day() {
    // 2024-02-29 13:34
    let f = frame(2024, 60, 13, 34);
    let expected = vec![
        M, // 0
        L, H, H, L, L, H, L, L, // 1-8: minute 34
        M, L, L, // 9-11
        L, H, L, L, L, H, H, // 12-18: hour 13
        M, L, L, // 19-21
        L, L, L, L, H, H, L, M, L, L, L, L, // 22-33: day 60
        L, L, // 34-35
        H, L, H, // 36-38: DUT1 sign
        M, // 39
        L, L, L, L, // 40-43: DUT1 value
        L, // 44
        L, L, H, L, M, L, H, L, L, // 45-53: year 24
        L, // 54
        H, // 55: leap year
        L, // 56
        L, L, // 57-58
        M, // 59
    ];
    assert_eq!(f, expected);
}

#[test]
fn frame_length_and_markers_at_year_boundaries() {
    for (year, day, hour, minute) in [(2023, 365, 23, 59), (2024, 1, 0, 0), (2024, 366, 23, 59), (2000, 60, 12, 0)] {
        let f = frame(year, day, hour, minute);
        assert_eq!(f.len(), 60);
        for p in MARKER_POSITIONS {
            assert_eq!(f[p], M);
        }
    }
}

#[test]
fn minutes_field_for_minute_34() {
    let f = frame(2023, 100, 5, 34);
    assert_eq!(&f[1..9], &[L, H, H, L, L, H, L, L]);
}

#[test]
fn leap_year_indicator() {
    assert_eq!(frame(2024, 100, 5, 34)[55], H);
    assert_eq!(frame(2023, 100, 5, 34)[55], L);
    assert_eq!(frame(2000, 100, 5, 34)[55], H);
    assert_eq!(frame(1900, 100, 5, 34)[55], L);
}

#[test]
fn day_of_year_366_field() {
    let f = frame(2024, 366, 0, 0);
    // 366: 200 and 100 set, 80 clear; 40 and 20 set, 10 clear; 4 and 2 set
    assert_eq!(&f[22..34], &[H, H, L, L, H, H, L, M, L, H, H, L]);
}

#[test]
fn negative_year_fails_to_encode() {
    let t = CalendarTime::new(-1, 1, 0, 0).unwrap();
    assert_eq!(WwvbEncoder::encode(t), Err(BcdError::NumberTooLarge(u32::MAX)));
}

#[test]
fn overflowing_field_is_reported_in_frame_order() {
    let t = CalendarTime { year: 2024, day_of_year: 1, hour: 100_000_000, minute: 100_000_001 };
    assert_eq!(WwvbEncoder::encode(t), Err(BcdError::NumberTooLarge(100_000_001)));
    let t = CalendarTime { year: 2024, day_of_year: 1, hour: 100_000_000, minute: 0 };
    assert_eq!(WwvbEncoder::encode(t), Err(BcdError::NumberTooLarge(100_000_000)));
}

#[test]
fn calendar_time_validation() {
    assert!(CalendarTime::new(2024, 366, 0, 0).is_some());
    assert!(CalendarTime::new(2023, 366, 0, 0).is_none());
    assert!(CalendarTime::new(2023, 0, 0, 0).is_none());
    assert!(CalendarTime::new(2023, 1, 24, 0).is_none());
    assert!(CalendarTime::new(2023, 1, 0, 60).is_none());
    assert!(CalendarTime::new(262_142, 1, 0, 0).is_some());
    assert!(CalendarTime::new(262_143, 1, 0, 0).is_none());
    assert!(CalendarTime::new(-262_143, 1, 0, 0).is_some());
    assert!(CalendarTime::new(-262_144, 1, 0, 0).is_none());
    assert_eq!(
        CalendarTime::new(2021, 45, 7, 8),
        Some(CalendarTime { year: 2021, day_of_year: 45, hour: 7, minute: 8 })
    );
}

#[test]
fn gregorian_leap_years() {
    assert!(is_leap_year(2024));
    assert!(!is_leap_year(2023));
    assert!(is_leap_year(2000));
    assert!(!is_leap_year(1900));
    assert!(is_leap_year(-4));
}
