use tsadaash::calendar::{date_of, day_number_of, leap_year, month_length, next_date, weekday_of};

#[test]
fn epoch_is_day_zero() {
    assert_eq!(day_number_of(1970, 1, 1), 0);
    assert_eq!(day_number_of(1970, 1, 2), 1);
    assert_eq!(day_number_of(1970, 2, 1), 31);
    assert_eq!(day_number_of(1971, 1, 1), 365);
}

#[test]
fn leap_years() {
    assert!(leap_year(1972));
    assert!(leap_year(2000));
    assert!(leap_year(2024));
    assert!(!leap_year(1970));
    assert!(!leap_year(1900));
    assert!(!leap_year(2023));
}

#[test]
fn month_lengths() {
    assert_eq!(month_length(2023, 2), 28);
    assert_eq!(month_length(2024, 2), 29);
    assert_eq!(month_length(2024, 4), 30);
    assert_eq!(month_length(2024, 12), 31);
}

#[test]
fn leap_day_counts() {
    // 1972 is a leap year: March 1st comes one day later than in 1971.
    assert_eq!(day_number_of(1972, 1, 1), 730);
    assert_eq!(day_number_of(1972, 3, 1), 730 + 31 + 29);
}

#[test]
fn date_roundtrip() {
    for &(y, m, d) in &[
        (1970u32, 1u32, 1u32),
        (1999, 12, 31),
        (2000, 2, 29),
        (2024, 2, 29),
        (2023, 6, 15),
        (9999, 12, 31),
    ] {
        let n = day_number_of(y, m, d);
        assert_eq!(date_of(n), (y, m, d));
    }
}

#[test]
fn weekdays() {
    // 1970-01-01 was a Thursday; index 3 with Monday = 0.
    assert_eq!(weekday_of(0), 3);
    // 2024-01-01 was a Monday.
    assert_eq!(weekday_of(day_number_of(2024, 1, 1)), 0);
    // 2023-02-06 was a Monday.
    assert_eq!(weekday_of(day_number_of(2023, 2, 6)), 0);
}

#[test]
fn successor_crosses_boundaries() {
    assert_eq!(next_date(2023, 2, 28), (2023, 3, 1));
    assert_eq!(next_date(2024, 2, 28), (2024, 2, 29));
    assert_eq!(next_date(2024, 12, 31), (2025, 1, 1));
    assert_eq!(next_date(2024, 6, 10), (2024, 6, 11));
}
