//! Proleptic Gregorian calendar arithmetic over day indices.
//!
//! An occurrence instant is a day index: the number of whole days since
//! 1970-01-01 (day 0). The spec functions here define the correspondence
//! between day indices and civil dates (year, month, day-of-month), and the
//! executable functions convert between the two forms.

use vstd::prelude::*;

verus! {

/// First year of the supported timeline; day index 0 is the first day of it.
pub const EPOCH_YEAR: u32 = 1970;

/// A year has 366 days when it is divisible by 4, except century years not
/// divisible by 400.
pub open spec fn is_leap_year(y: int) -> bool {
    y % 4 == 0 && (y % 100 != 0 || y % 400 == 0)
}

pub open spec fn days_in_year(y: int) -> int {
    if is_leap_year(y) {
        366
    } else {
        365
    }
}

/// Length of month `m` (1 = January .. 12 = December) in year `y`.
pub open spec fn days_in_month(y: int, m: int) -> int {
    if m == 2 {
        if is_leap_year(y) {
            29
        } else {
            28
        }
    } else if m == 4 || m == 6 || m == 9 || m == 11 {
        30
    } else {
        31
    }
}

/// Days strictly before January 1st of year `y`, counted from day 0.
pub open spec fn days_before_year(y: int) -> int
    decreases y,
{
    if y <= EPOCH_YEAR {
        0
    } else {
        days_before_year(y - 1) + days_in_year(y - 1)
    }
}

/// Days of year `y` strictly before the first of month `m`.
pub open spec fn days_before_month(y: int, m: int) -> int
    decreases m,
{
    if m <= 1 {
        0
    } else {
        days_before_month(y, m - 1) + days_in_month(y, m - 1)
    }
}

/// The day index of the civil date `y`-`m`-`d`.
pub open spec fn day_number(y: int, m: int, d: int) -> int {
    days_before_year(y) + days_before_month(y, m) + (d - 1)
}

pub open spec fn valid_date(y: int, m: int, d: int) -> bool {
    &&& EPOCH_YEAR <= y
    &&& 1 <= m <= 12
    &&& 1 <= d <= days_in_month(y, m)
}

/// Walks forward from year `y`, consuming whole years from `rem`; yields the
/// year that the remaining count lands in, and the count left within it.
pub open spec fn year_rem(y: int, rem: int) -> (int, int)
    decreases rem,
{
    if rem < days_in_year(y) {
        (y, rem)
    } else {
        year_rem(y + 1, rem - days_in_year(y))
    }
}

/// Walks forward from month `m` of year `y`, consuming whole months from
/// `rem`; stops at December at the latest.
pub open spec fn month_rem(y: int, m: int, rem: int) -> (int, int)
    decreases 12 - m,
{
    if m >= 12 || rem < days_in_month(y, m) {
        (m, rem)
    } else {
        month_rem(y, m + 1, rem - days_in_month(y, m))
    }
}

/// The year that day index `day` falls in.
pub open spec fn year_of(day: int) -> int {
    year_rem(EPOCH_YEAR as int, day).0
}

/// The month (1..12) that day index `day` falls in.
pub open spec fn month_of(day: int) -> int {
    month_rem(year_of(day), 1, year_rem(EPOCH_YEAR as int, day).1).0
}

/// The day of the month (1-based) of day index `day`.
pub open spec fn day_of_month(day: int) -> int {
    month_rem(year_of(day), 1, year_rem(EPOCH_YEAR as int, day).1).1 + 1
}

/// Weekday of a day index, as 0 = Monday .. 6 = Sunday.
/// Day 0 (1970-01-01) was a Thursday, index 3.
pub open spec fn weekday_index_of(day: int) -> int {
    (day + 3) % 7
}

pub proof fn lemma_days_before_year_mono(a: int, b: int)
    requires
        a <= b,
    ensures
        days_before_year(a) <= days_before_year(b),
    decreases b - a,
{
    if a < b {
        lemma_days_before_year_mono(a, b - 1);
    }
}

/// Every year adds at least 365 and at most 366 days.
pub proof fn lemma_days_before_year_linear(y: int)
    requires
        EPOCH_YEAR <= y,
    ensures
        365 * (y - EPOCH_YEAR) <= days_before_year(y) <= 366 * (y - EPOCH_YEAR),
    decreases y,
{
    if y > EPOCH_YEAR {
        lemma_days_before_year_linear(y - 1);
    }
}

pub proof fn lemma_days_before_month_mono(y: int, a: int, b: int)
    requires
        a <= b,
    ensures
        days_before_month(y, a) <= days_before_month(y, b),
    decreases b - a,
{
    if a < b {
        lemma_days_before_month_mono(y, a, b - 1);
    }
}

/// The twelve months of a year account for exactly its days.
pub proof fn lemma_months_cover_year(y: int)
    ensures
        days_before_month(y, 13) == days_in_year(y),
{
    reveal_with_fuel(days_before_month, 13);
}

/// What `year_rem` yields: a year at or after the start, a residue that fits
/// inside it, and an exact accounting of the days consumed.
pub proof fn lemma_year_rem_props(y0: int, r: int)
    requires
        0 <= r,
    ensures
        y0 <= year_rem(y0, r).0,
        0 <= year_rem(y0, r).1 < days_in_year(year_rem(y0, r).0),
        days_before_year(year_rem(y0, r).0) - days_before_year(y0) + year_rem(y0, r).1 == r
            || y0 < EPOCH_YEAR,
    decreases r,
{
    if r >= days_in_year(y0) {
        lemma_year_rem_props(y0 + 1, r - days_in_year(y0));
    }
}

/// What `month_rem` yields when the residue fits inside the year's remaining
/// months: a month in range, a residue that fits inside it, and an exact
/// accounting.
pub proof fn lemma_month_rem_props(y: int, m0: int, r: int)
    requires
        0 <= r,
        1 <= m0 <= 12,
        days_before_month(y, m0) + r < days_before_month(y, 13),
    ensures
        m0 <= month_rem(y, m0, r).0 <= 12,
        0 <= month_rem(y, m0, r).1 < days_in_month(y, month_rem(y, m0, r).0),
        days_before_month(y, month_rem(y, m0, r).0) - days_before_month(y, m0) + month_rem(
            y,
            m0,
            r,
        ).1 == r,
    decreases 12 - m0,
{
    if m0 >= 12 || r < days_in_month(y, m0) {
        if m0 >= 12 && r >= days_in_month(y, m0) {
            assert(days_before_month(y, 13) == days_before_month(y, 12) + days_in_month(y, 12));
        }
    } else {
        lemma_month_rem_props(y, m0 + 1, r - days_in_month(y, m0));
    }
}

/// Converting a valid civil date to its day index and back yields the same
/// date: `year_of`, `month_of` and `day_of_month` invert `day_number`.
pub proof fn lemma_date_of_day_number(y: int, m: int, d: int)
    requires
        valid_date(y, m, d),
    ensures
        year_of(day_number(y, m, d)) == y,
        month_of(day_number(y, m, d)) == m,
        day_of_month(day_number(y, m, d)) == d,
{
    let n = day_number(y, m, d);
    let rem_y = n - days_before_year(y);
    lemma_days_before_month_mono(y, 1, m);
    lemma_days_before_month_mono(y, m + 1, 13);
    lemma_months_cover_year(y);
    assert(days_before_month(y, m + 1) == days_before_month(y, m) + days_in_month(y, m));
    assert(0 <= rem_y < days_in_year(y));
    assert(0 <= n) by {
        lemma_days_before_year_mono(EPOCH_YEAR as int, y);
    }
    // The year component is y.
    lemma_year_rem_props(EPOCH_YEAR as int, n);
    let (yy, ry) = year_rem(EPOCH_YEAR as int, n);
    assert(days_before_year(yy) + ry == n);
    if yy < y {
        lemma_days_before_year_mono(yy + 1, y);
        assert(days_before_year(yy + 1) == days_before_year(yy) + days_in_year(yy));
        assert(false);
    }
    if yy > y {
        lemma_days_before_year_mono(y + 1, yy);
        assert(days_before_year(y + 1) == days_before_year(y) + days_in_year(y));
        assert(false);
    }
    assert(yy == y && ry == rem_y);
    // The month and day components follow from month_rem on the residue.
    lemma_month_rem_props(y, 1, rem_y);
    let (mm, rm) = month_rem(y, 1, rem_y);
    assert(days_before_month(y, mm) + rm == rem_y);
    if mm < m {
        lemma_days_before_month_mono(y, mm + 1, m);
        assert(days_before_month(y, mm + 1) == days_before_month(y, mm) + days_in_month(y, mm));
        assert(false);
    }
    if mm > m {
        lemma_days_before_month_mono(y, m + 1, mm);
        assert(false);
    }
    assert(mm == m && rm == d - 1);
}

/// Every day index lands on a valid date, at or after the epoch year, and
/// `day_number` inverts the three component functions.
pub proof fn lemma_day_number_of_date(day: int)
    requires
        0 <= day,
    ensures
        valid_date(year_of(day), month_of(day), day_of_month(day)),
        day_number(year_of(day), month_of(day), day_of_month(day)) == day,
        days_before_year(year_of(day)) <= day,
{
    lemma_year_rem_props(EPOCH_YEAR as int, day);
    let (y, ry) = year_rem(EPOCH_YEAR as int, day);
    lemma_months_cover_year(y);
    lemma_month_rem_props(y, 1, ry);
}

pub fn leap_year(y: u32) -> (r: bool)
    ensures
        r == is_leap_year(y as int),
{
    y % 4 == 0 && (y % 100 != 0 || y % 400 == 0)
}

pub fn month_length(y: u32, m: u32) -> (r: u32)
    ensures
        r == days_in_month(y as int, m as int),
{
    if m == 2 {
        if leap_year(y) {
            29
        } else {
            28
        }
    } else if m == 4 || m == 6 || m == 9 || m == 11 {
        30
    } else {
        31
    }
}

fn year_length(y: u32) -> (r: u32)
    ensures
        r == days_in_year(y as int),
{
    if leap_year(y) {
        366
    } else {
        365
    }
}

/// The civil date of a day index: `(year, month, day-of-month)`.
pub fn date_of(day: u32) -> (r: (u32, u32, u32))
    ensures
        r.0 == year_of(day as int),
        r.1 == month_of(day as int),
        r.2 == day_of_month(day as int),
        valid_date(r.0 as int, r.1 as int, r.2 as int),
        day_number(r.0 as int, r.1 as int, r.2 as int) == day as int,
{
    let mut y: u32 = EPOCH_YEAR;
    let mut rem: u32 = day;
    proof {
        lemma_year_rem_props(EPOCH_YEAR as int, day as int);
    }
    loop
        invariant
            EPOCH_YEAR <= y,
            year_rem(y as int, rem as int) == year_rem(EPOCH_YEAR as int, day as int),
            days_before_year(y as int) + rem == day as int,
        ensures
            EPOCH_YEAR <= y,
            rem < days_in_year(y as int),
            year_rem(y as int, rem as int) == year_rem(EPOCH_YEAR as int, day as int),
            days_before_year(y as int) + rem == day as int,
        decreases rem as int,
    {
        let len = year_length(y);
        if rem < len {
            break ;
        }
        proof {
            lemma_days_before_year_linear(y as int);
            if y == u32::MAX {
                assert(365 * (u32::MAX - EPOCH_YEAR) > u32::MAX);
                assert(false);
            }
        }
        rem = rem - len;
        y = y + 1;
    }
    assert(year_rem(y as int, rem as int) == (y as int, rem as int));
    assert(y as int == year_of(day as int));
    proof {
        lemma_months_cover_year(y as int);
    }
    let ghost rem0: int = rem as int;
    let mut m: u32 = 1;
    loop
        invariant
            1 <= m <= 12,
            month_rem(y as int, m as int, rem as int) == month_rem(y as int, 1, rem0),
            days_before_month(y as int, m as int) + rem == rem0,
            rem0 < days_in_year(y as int),
            days_before_month(y as int, 13) == days_in_year(y as int),
        ensures
            1 <= m <= 12,
            m >= 12 || rem < days_in_month(y as int, m as int),
            month_rem(y as int, m as int, rem as int) == month_rem(y as int, 1, rem0),
            days_before_month(y as int, m as int) + rem == rem0,
        decreases 12 - m as int,
    {
        let len = month_length(y, m);
        if m >= 12 || rem < len {
            break ;
        }
        rem = rem - len;
        m = m + 1;
    }
    assert(month_rem(y as int, m as int, rem as int) == (m as int, rem as int));
    assert(m as int == month_of(day as int) && rem as int == day_of_month(day as int) - 1);
    proof {
        if m == 12 {
            lemma_days_before_month_mono(y as int, 12, 13);
            assert(days_before_month(y as int, 13) == days_before_month(y as int, 12)
                + days_in_month(y as int, 12));
        }
    }
    (y, m, rem + 1)
}

/// The day index of a valid civil date. Years through 9999 are supported,
/// which keeps the index well inside `u32`.
pub fn day_number_of(y: u32, m: u32, d: u32) -> (r: u32)
    requires
        valid_date(y as int, m as int, d as int),
        y <= 9999,
    ensures
        r as int == day_number(y as int, m as int, d as int),
{
    let mut acc: u32 = 0;
    let mut yy: u32 = EPOCH_YEAR;
    while yy < y
        invariant
            EPOCH_YEAR <= yy <= y <= 9999,
            acc == days_before_year(yy as int),
        decreases y - yy,
    {
        proof {
            lemma_days_before_year_linear(yy as int);
        }
        acc = acc + year_length(yy);
        yy = yy + 1;
    }
    let mut mm: u32 = 1;
    proof {
        lemma_days_before_year_linear(y as int);
    }
    while mm < m
        invariant
            1 <= mm <= m <= 12,
            acc == days_before_year(y as int) + days_before_month(y as int, mm as int),
            y <= 9999,
            days_before_year(y as int) <= 366 * (9999 - EPOCH_YEAR),
        decreases m - mm,
    {
        proof {
            lemma_days_before_month_mono(y as int, 1, mm as int);
            lemma_days_before_month_mono(y as int, mm as int, 13);
            lemma_months_cover_year(y as int);
        }
        acc = acc + month_length(y, mm);
        mm = mm + 1;
    }
    proof {
        lemma_days_before_month_mono(y as int, 1, m as int);
        lemma_days_before_month_mono(y as int, m as int, 13);
        lemma_months_cover_year(y as int);
    }
    acc + (d - 1)
}

/// The date one day after a valid date.
pub fn next_date(y: u32, m: u32, d: u32) -> (r: (u32, u32, u32))
    requires
        valid_date(y as int, m as int, d as int),
        y < u32::MAX,
    ensures
        valid_date(r.0 as int, r.1 as int, r.2 as int),
        day_number(r.0 as int, r.1 as int, r.2 as int) == day_number(y as int, m as int, d as int)
            + 1,
{
    let len = month_length(y, m);
    if d < len {
        (y, m, d + 1)
    } else if m < 12 {
        assert(days_before_month(y as int, m as int + 1) == days_before_month(y as int, m as int)
            + days_in_month(y as int, m as int));
        (y, m + 1, 1)
    } else {
        proof {
            lemma_months_cover_year(y as int);
            lemma_days_before_month_mono(y as int, 12, 13);
            assert(days_before_month(y as int, 13) == days_before_month(y as int, 12)
                + days_in_month(y as int, 12));
        }
        (y + 1, 1, 1)
    }
}

/// Weekday index (0 = Monday .. 6 = Sunday) of a day index.
pub fn weekday_of(day: u32) -> (r: u32)
    ensures
        r as int == weekday_index_of(day as int),
        r < 7,
{
    ((day as u64 + 3) % 7) as u32
}

} // verus!
