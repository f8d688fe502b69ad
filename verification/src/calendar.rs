//! Julian day numbers of proleptic Gregorian calendar dates.
//!
//! The day count is the one `swe_julday` computes with `SE_GREG_CAL`:
//! for a date `(year, month, day)` the Julian day at 12:00 UT is
//! `floor(365.25 * (u + 4712)) + floor(30.6 * k) + day - 61 - g`, where `u`
//! and `k` are the year and month counted from March (January and February
//! belong to the previous year, March is `k = 4`) and `g` is the Gregorian
//! century correction. Julian days begin at noon, so the number
//! computed here is the Julian day of noon on that date.
use vstd::prelude::*;

verus! {

/// The year of the March-based year that a month belongs to: January and
/// February count with the previous year.
pub open spec fn shifted_year(year: int, month: int) -> int {
    if month < 3 {
        year - 1
    } else {
        year
    }
}

/// The month number counted from March = 4 up to February = 15.
pub open spec fn shifted_month(month: int) -> int {
    if month < 3 {
        month + 13
    } else {
        month + 1
    }
}

/// Days contributed by the years before `u` (Julian leap rule),
/// `floor(365.25 * (u + 4712))`.
pub open spec fn year_days(u: int) -> int {
    365 * (u + 4712) + (u + 4712) / 4
}

/// Days contributed by the months before `m'`, `floor(30.6 * m')`.
pub open spec fn month_days(m: int) -> int {
    (153 * m) / 5
}

/// The Gregorian correction: century years not divisible by 400 are not
/// leap years.
pub open spec fn century_correction(u: int) -> int {
    u / 100 - u / 400
}

/// The Julian day number of `(year, month, day)`: the Julian day of 12:00 UT
/// on that date. Months and days outside their usual ranges are extended
/// arithmetically.
pub open spec fn jdn(year: int, month: int, day: int) -> int {
    let u = shifted_year(year, month);
    year_days(u) + month_days(shifted_month(month)) + day - 61 - century_correction(u)
}

/// Whether `year` is a leap year of the proleptic Gregorian calendar.
pub open spec fn is_leap_year(year: int) -> bool {
    year % 4 == 0 && (year % 100 != 0 || year % 400 == 0)
}

/// The number of days of `month` (1 to 12) in `year`.
pub open spec fn days_in_month(year: int, month: int) -> int {
    if month == 2 {
        if is_leap_year(year) {
            29
        } else {
            28
        }
    } else if month == 4 || month == 6 || month == 9 || month == 11 {
        30
    } else {
        31
    }
}

/// Whether `(year, month, day)` names a day of the Gregorian calendar.
pub open spec fn is_valid_date(year: int, month: int, day: int) -> bool {
    &&& 1 <= month <= 12
    &&& 1 <= day <= days_in_month(year, month)
}

/// One year after January 1 of `year` comes January 1 of the next year.
proof fn lemma_year_length(year: int)
    ensures
        jdn(year + 1, 1, 1) - jdn(year, 1, 1) == if is_leap_year(year) { 366int } else { 365int },
{
    let x = year + 4712;
    assert((x + 0) / 4 - (x - 1) / 4 == if x % 4 == 0 { 1int } else { 0int });
    assert(year / 100 - (year - 1) / 100 == if year % 100 == 0 { 1int } else { 0int });
    assert(year / 400 - (year - 1) / 400 == if year % 400 == 0 { 1int } else { 0int });
    assert(x % 4 == year % 4);
    assert(year % 400 == 0 ==> year % 100 == 0);
    assert(year % 100 == 0 ==> year % 4 == 0);
}

/// Within one March-based year, consecutive months differ by the month
/// lengths of the 30.6-day rule.
proof fn lemma_month_days_step(k: int)
    requires
        4 <= k <= 14,
    ensures
        month_days(k + 1) - month_days(k) == if k == 5 || k == 7 || k == 10 || k == 12 {
            30int
        } else {
            31int
        },
{
}

/// February is 28 days long, 29 in a leap year.
proof fn lemma_february_length(year: int)
    ensures
        jdn(year, 3, 1) - jdn(year, 2, 1) == days_in_month(year, 2),
{
    lemma_year_length(year);
    let u = year - 1;
    assert(jdn(year, 2, 1) == year_days(u) + month_days(15) + 1 - 61 - century_correction(u));
    assert(jdn(year, 1, 1) == year_days(u) + month_days(14) + 1 - 61 - century_correction(u));
    assert(jdn(year, 3, 1) == year_days(year) + month_days(4) + 1 - 61 - century_correction(year));
    assert(jdn(year + 1, 1, 1) == year_days(year) + month_days(14) + 1 - 61 - century_correction(
        year,
    ));
    assert(month_days(15) == 459 && month_days(14) == 428 && month_days(4) == 122);
}

/// The first day of the month after `month` lies `days_in_month` days after
/// the first day of `month`.
proof fn lemma_month_length(year: int, month: int)
    requires
        1 <= month <= 12,
    ensures
        jdn(year, month + 1, 1) - jdn(year, month, 1) == days_in_month(year, month),
{
    if month == 2 {
        lemma_february_length(year);
    } else {
        let u = shifted_year(year, month);
        let k = shifted_month(month);
        assert(shifted_year(year, month + 1) == u);
        assert(shifted_month(month + 1) == k + 1);
        let base = year_days(u) - 61 - century_correction(u);
        assert(jdn(year, month, 1) == base + month_days(k) + 1);
        assert(jdn(year, month + 1, 1) == base + month_days(k + 1) + 1);
        lemma_month_days_step(k);
    }
}

/// Each year is at least 365 days long, so January 1 moves forward with
/// the year.
proof fn lemma_year_starts_increase(a: int, b: int)
    requires
        a <= b,
    ensures
        jdn(a, 1, 1) + 365 * (b - a) <= jdn(b, 1, 1),
    decreases b - a,
{
    if a < b {
        lemma_year_starts_increase(a, b - 1);
        lemma_year_length(b - 1);
    }
}

/// Each month is at least 28 days long, so the first day of a month moves
/// forward with the month, up to January 1 of the next year (month 13).
proof fn lemma_month_starts_increase(year: int, a: int, b: int)
    requires
        1 <= a <= b <= 13,
    ensures
        jdn(year, a, 1) + 28 * (b - a) <= jdn(year, b, 1),
    decreases b - a,
{
    if a < b {
        lemma_month_starts_increase(year, a, b - 1);
        lemma_month_length(year, b - 1);
    }
}

/// A valid date lies within its month, and its month within its year.
proof fn lemma_date_within_year(year: int, month: int, day: int)
    requires
        is_valid_date(year, month, day),
    ensures
        jdn(year, 1, 1) <= jdn(year, month, 1) <= jdn(year, month, day),
        jdn(year, month, day) < jdn(year, month + 1, 1) <= jdn(year + 1, 1, 1),
{
    lemma_month_length(year, month);
    lemma_month_starts_increase(year, 1, month);
    lemma_month_starts_increase(year, month + 1, 13);
    assert(jdn(year, 13, 1) == jdn(year + 1, 1, 1));
}

/// Distinct valid dates have distinct Julian day numbers, and the Julian
/// day number of every valid date with an `i32` year lies in the range
/// that `date_from_julian_day_number` accepts: converting such a date to
/// its Julian day number and back gives the date again.
pub proof fn julian_day_number_round_trip(year: int, month: int, day: int)
    requires
        i32::MIN <= year <= i32::MAX,
        is_valid_date(year, month, day),
    ensures
        in_date_range(jdn(year, month, day)),
        forall|y: int, m: int, d: int|
            is_valid_date(y, m, d) && #[trigger] jdn(y, m, d) == jdn(year, month, day) ==> y == year
                && m == month && d == day,
{
    lemma_date_within_year(year, month, day);
    lemma_year_starts_increase(i32::MIN as int, year);
    lemma_year_starts_increase(year + 1, i32::MAX as int + 1);
    assert forall|y: int, m: int, d: int|
        is_valid_date(y, m, d) && #[trigger] jdn(y, m, d) == jdn(year, month, day) implies y == year
            && m == month && d == day by {
        lemma_date_within_year(y, m, d);
        if y < year {
            lemma_year_starts_increase(y + 1, year);
        } else if y > year {
            lemma_year_starts_increase(year + 1, y);
        } else if m < month {
            lemma_month_starts_increase(year, m + 1, month);
        } else if m > month {
            lemma_month_starts_increase(year, month + 1, m);
        }
    }
}

/// Day 0 of a month is the last day of the previous month (day 0 of
/// January is December 31 of the previous year).
pub proof fn day_zero_is_last_day_of_previous_month(year: int, month: int)
    requires
        1 <= month <= 12,
    ensures
        month == 1 ==> jdn(year, month, 0) == jdn(year - 1, 12, 31),
        month > 1 ==> jdn(year, month, 0) == jdn(year, month - 1, days_in_month(year, month - 1)),
{
    if month == 1 {
        lemma_month_length(year - 1, 12);
        assert(jdn(year - 1, 13, 1) == jdn(year, 1, 1));
    } else {
        lemma_month_length(year, month - 1);
    }
}

/// Month 13 is January of the next year and month 0 is December of the
/// previous year, whatever the day.
pub proof fn months_outside_the_year_carry_over(year: int, day: int)
    ensures
        jdn(year, 13, day) == jdn(year + 1, 1, day),
        jdn(year, 0, day) == jdn(year - 1, 12, day),
{
}

/// Consecutive days have consecutive Julian day numbers, whatever the
/// month and day.
pub proof fn next_day_is_next_julian_day(year: int, month: int, day: int)
    ensures
        jdn(year, month, day + 1) == jdn(year, month, day) + 1,
{
}

/// Floor division by a positive divisor.
fn floor_div(a: i64, b: i64) -> (q: i64)
    requires
        b > 0,
        a > i64::MIN,
    ensures
        q == a / b,
{
    if a >= 0 {
        a / b
    } else {
        let r = (-a - 1) / b;
        proof {
            let na: int = -a - 1;
            let bb: int = b as int;
            let rem: int = na % bb;
            vstd::arithmetic::div_mod::lemma_fundamental_div_mod(na, bb);
            vstd::arithmetic::div_mod::lemma_mod_pos_bound(na, bb);
            assert(a == bb * (-r - 1) + (bb - 1 - rem)) by (nonlinear_arith)
                requires
                    na == bb * r + rem,
                    na == -a - 1,
            ;
            vstd::arithmetic::div_mod::lemma_fundamental_div_mod_converse(
                a as int,
                bb,
                -r - 1,
                bb - 1 - rem,
            );
        }
        -r - 1
    }
}

/// The Julian day number of a Gregorian calendar date: the Julian day of
/// 12:00 UT on it, as `swe_julday(year, month, day, 12.0, SE_GREG_CAL)`
/// computes it. Values are not validated: out-of-range `month` and `day`
/// are extended arithmetically (day 0 is the last day of the previous
/// month, month 13 is January of the next year).
pub fn julian_day_number(year: i32, month: i32, day: i32) -> (n: i64)
    ensures
        n == jdn(year as int, month as int, day as int),
{
    let u: i64 = if month < 3 { year as i64 - 1 } else { year as i64 };
    let m: i64 = if month < 3 { month as i64 + 13 } else { month as i64 + 1 };
    let years: i64 = 365 * (u + 4712) + floor_div(u + 4712, 4);
    let months: i64 = floor_div(153 * m, 5);
    let correction: i64 = floor_div(u, 100) - floor_div(u, 400);
    years + months + day as i64 - 61 - correction
}

/// The Julian day numbers whose dates have a year that fits in an `i32`.
pub open spec fn in_date_range(n: int) -> bool {
    jdn(i32::MIN as int, 1, 1) <= n < jdn(i32::MAX as int + 1, 1, 1)
}

/// The Gregorian calendar date `(year, month, day)` whose Julian day
/// number is `n`: the date on which the Julian day `n` begins at noon.
pub fn date_from_julian_day_number(n: i64) -> (date: (i32, u32, u32))
    requires
        in_date_range(n as int),
    ensures
        is_valid_date(date.0 as int, date.1 as int, date.2 as int),
        jdn(date.0 as int, date.1 as int, date.2 as int) == n,
        forall|y: int, m: int, d: int|
            is_valid_date(y, m, d) && #[trigger] jdn(y, m, d) == n ==> y == date.0 && m == date.1
                && d == date.2,
{
    // The year: the last one whose January 1 is not after `n`.
    let mut lo: i64 = i32::MIN as i64;
    let mut hi: i64 = i32::MAX as i64;
    while lo < hi
        invariant
            i32::MIN <= lo <= hi <= i32::MAX,
            jdn(lo as int, 1, 1) <= n < jdn(hi as int + 1, 1, 1),
        decreases hi - lo,
    {
        let mid: i64 = lo + (hi - lo + 1) / 2;
        if julian_day_number(mid as i32, 1, 1) <= n {
            lo = mid;
        } else {
            hi = mid - 1;
        }
    }
    let year: i32 = lo as i32;
    // The month: the last one whose first day is not after `n`.
    let mut month: i32 = 1;
    while month < 12 && julian_day_number(year, month + 1, 1) <= n
        invariant
            1 <= month <= 12,
            jdn(year as int, month as int, 1) <= n < jdn(year as int + 1, 1, 1),
        decreases 12 - month,
    {
        month = month + 1;
    }
    let first: i64 = julian_day_number(year, month, 1);
    proof {
        lemma_month_length(year as int, month as int);
        assert(jdn(year as int, 13, 1) == jdn(year as int + 1, 1, 1));
    }
    let day: i64 = n - first + 1;
    proof {
        julian_day_number_round_trip(year as int, month as int, day as int);
    }
    (year, month as u32, day as u32)
}

} // verus!
