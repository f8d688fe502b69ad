use sweph::calendar::{date_from_julian_day_number, julian_day_number};

/// The Julian day of `hour` (decimal UT) on a date, from its Julian day
/// number (the Julian day of noon).
fn julian_day(year: i32, month: i32, day: i32, hour: f64) -> f64 {
    julian_day_number(year, month, day) as f64 - 0.5 + hour / 24.0
}

#[test]
fn julday_j2000() {
    let jd = julian_day(2000, 1, 1, 12.0);
    assert!((jd - 2451545.0).abs() < 0.0001, "JD was {jd}");
}

#[test]
fn julian_day_j2000_and_roundtrip() {
    let jd = julian_day(2000, 1, 1, 12.0);
    assert!((jd - 2451545.0).abs() < 1e-6);
    let n = (jd + 0.5).floor();
    let (year, month, day) = date_from_julian_day_number(n as i64);
    let hour = (jd - n + 0.5) * 24.0;
    assert_eq!((year, month, day), (2000, 1, 1));
    assert!((hour - 12.0).abs() < 1e-6);
}

#[test]
fn j2000_is_julian_day_number_2451545() {
    assert_eq!(julian_day_number(2000, 1, 1), 2451545);
}

#[test]
fn known_julian_day_numbers() {
    // The Julian day epoch in the proleptic Gregorian calendar.
    assert_eq!(julian_day_number(-4713, 11, 24), 0);
    // The Unix epoch.
    assert_eq!(julian_day_number(1970, 1, 1), 2440588);
    // The first day of the Gregorian reform.
    assert_eq!(julian_day_number(1582, 10, 15), 2299161);
    assert_eq!(julian_day_number(2024, 4, 8), 2460409);
    assert_eq!(julian_day_number(2024, 3, 25), 2460395);
}

#[test]
fn round_trip_of_valid_dates() {
    let dates: [(i32, u32, u32); 12] = [
        (2000, 1, 1),
        (2000, 2, 29),
        (1900, 2, 28),
        (1999, 12, 31),
        (2024, 4, 8),
        (1, 1, 1),
        (0, 2, 29),
        (-1, 12, 31),
        (-100, 3, 1),
        (-4713, 11, 24),
        (i32::MIN, 1, 1),
        (i32::MAX, 12, 31),
    ];
    for (y, m, d) in dates {
        let n = julian_day_number(y, m as i32, d as i32);
        assert_eq!(date_from_julian_day_number(n), (y, m, d));
    }
}

#[test]
fn consecutive_days_have_consecutive_numbers() {
    let mut n = julian_day_number(1999, 12, 25);
    let mut expected = (1999, 12, 25);
    for _ in 0..80 {
        n += 1;
        let next = date_from_julian_day_number(n);
        assert_eq!(julian_day_number(next.0, next.1 as i32, next.2 as i32), n);
        assert_ne!(next, expected);
        expected = next;
    }
    assert_eq!(expected, (2000, 3, 14));
}

#[test]
fn day_zero_is_the_last_day_of_the_previous_month() {
    assert_eq!(julian_day_number(2000, 3, 0), julian_day_number(2000, 2, 29));
    assert_eq!(julian_day_number(1900, 3, 0), julian_day_number(1900, 2, 28));
    assert_eq!(julian_day_number(2001, 1, 0), julian_day_number(2000, 12, 31));
    assert_eq!(date_from_julian_day_number(julian_day_number(2023, 5, 0)), (2023, 4, 30));
}

#[test]
fn months_outside_the_year_carry_over() {
    assert_eq!(julian_day_number(2000, 13, 5), julian_day_number(2001, 1, 5));
    assert_eq!(julian_day_number(2000, 0, 5), julian_day_number(1999, 12, 5));
}

#[test]
fn leap_years_follow_the_gregorian_rule() {
    // 1900 is not a leap year: February 29 is March 1.
    assert_eq!(date_from_julian_day_number(julian_day_number(1900, 2, 29)), (1900, 3, 1));
    // 2000 is.
    assert_eq!(date_from_julian_day_number(julian_day_number(2000, 2, 29)), (2000, 2, 29));
    assert_eq!(julian_day_number(2001, 1, 1) - julian_day_number(2000, 1, 1), 366);
    assert_eq!(julian_day_number(2101, 1, 1) - julian_day_number(2100, 1, 1), 365);
}
