//! The occurrence resolver: expands a `Periodicity` over a bounded half-open
//! window `[from, to)` into the ordered sequence of occurrence day indices.
//!
//! `occurs` is the specification: it says, for every configuration and every
//! day index, whether the rule fires on that day. Interval rules (every N
//! days, weeks or months) are phased by congruence from the anchor, never by
//! stepping from an origin. Count-only settings declare how many occurrences
//! a period holds without naming days; the documented placement policy is the
//! first K days (or weeks) of each period, with day and fortnight periods
//! counted in blocks from the anchor and month and year periods being
//! calendar months and years.

use vstd::prelude::*;

use crate::calendar::{
    date_of, day_number, day_of_month, days_before_month, days_before_year, days_in_month,
    days_in_year, lemma_date_of_day_number, lemma_day_number_of_date,
    lemma_days_before_month_mono, lemma_days_before_year_linear, lemma_months_cover_year,
    month_length, month_of, next_date, valid_date, weekday_index_of, weekday_of, year_of,
    EPOCH_YEAR,
};
use crate::periodicity::{
    month_index, weekday_index, DaySetting, MonthOfYear, MonthSetting, Periodicity,
    PeriodicityConfig, SpecificDayMonth, SpecificDayMonthSetting, Weekday, WeekSetting,
};
use crate::validate::{valid_config, validate};

verus! {

#[derive(Clone, Copy, Debug, PartialEq, Eq, Structural)]
pub enum ResolverError {
    /// The window is malformed: `from >= to`.
    InvalidWindow,
    /// The `Periodicity` does not satisfy the validator; unreachable for
    /// builder-made values.
    InvalidState,
}

/// Index of the week holding `day`, for weeks beginning on the weekday with
/// index `ws`; consecutive weeks get consecutive numbers and `day` starts a
/// week exactly when its weekday index is `ws`.
pub open spec fn week_number(day: int, ws: int) -> int {
    (day + 10 - ws) / 7
}

/// What the week numbering promises: moving seven days forward moves one
/// week forward, and the number changes within a seven-day stretch exactly
/// at the days whose weekday index is `ws`.
pub proof fn lemma_week_number_props(day: int, ws: int)
    requires
        0 <= ws < 7,
    ensures
        week_number(day + 7, ws) == week_number(day, ws) + 1,
        weekday_index_of(day) == ws <==> (day + 10 - ws) % 7 == 0,
{
    let x = day + 10 - ws;
    vstd::arithmetic::div_mod::lemma_fundamental_div_mod(x, 7);
    vstd::arithmetic::div_mod::lemma_mod_bound(x, 7);
    vstd::arithmetic::div_mod::lemma_fundamental_div_mod_converse(x + 7, 7, x / 7 + 1, x % 7);
    vstd::arithmetic::div_mod::lemma_mod_equivalence(day + 3, ws, 7);
    assert((day + 3 - ws) % 7 == (day + 10 - ws) % 7) by {
        vstd::arithmetic::div_mod::lemma_mod_add_multiples_vanish(day + 3 - ws, 7);
    }
    assert(ws % 7 == ws) by {
        vstd::arithmetic::div_mod::lemma_small_mod(ws as nat, 7);
    }
}

/// Offset of `day` inside its block of `len` days counted from the anchor:
/// the distance from the last block boundary at or before `day`.
pub open spec fn block_offset(day: int, anchor: int, len: int) -> int {
    (day + (len - anchor % len)) % len
}

/// `block_offset` is exactly the distance `day - anchor` taken modulo the
/// block length: the nonnegative form used above never differs from it.
pub proof fn lemma_block_offset_is_anchor_distance(day: int, anchor: int, len: int)
    requires
        0 < len,
    ensures
        block_offset(day, anchor, len) == (day - anchor) % len,
{
    let q = anchor / len;
    vstd::arithmetic::div_mod::lemma_fundamental_div_mod(anchor, len);
    assert(len * (q + 1) == len * q + len) by (nonlinear_arith);
    assert(day + (len - anchor % len) == len * (q + 1) + (day - anchor));
    vstd::arithmetic::div_mod::lemma_mod_multiples_vanish(q + 1, day - anchor, len);
}

/// Months elapsed since January of the epoch year, for the month holding
/// `day`.
pub open spec fn month_count(day: int) -> int {
    (year_of(day) - EPOCH_YEAR) * 12 + (month_of(day) - 1)
}

/// Whether `day` is one of the listed instants.
pub open spec fn contains_instant(s: Seq<u32>, day: int) -> bool {
    exists|i: int| 0 <= i < s.len() && s[i] as int == day
}

/// Whether one nth-weekday-of-month entry fires on `day`: the weekday must
/// match, and the day must be the k-th occurrence of that weekday in its
/// month, counted from the first day or from the last.
pub open spec fn nth_entry_occurs(e: SpecificDayMonth, day: int) -> bool {
    weekday_index(e.weekday) == weekday_index_of(day) && match e.position {
        SpecificDayMonthSetting::MonthWeekFromFirst(k) => (day_of_month(day) - 1) / 7 + 1
            == k as int,
        SpecificDayMonthSetting::MonthWeekFromLast(k) => (days_in_month(
            year_of(day),
            month_of(day),
        ) - day_of_month(day)) / 7 + 1 == k as int,
    }
}

pub open spec fn day_setting_occurs(s: DaySetting, anchor: int, day: int) -> bool {
    match s {
        DaySetting::EveryDay => true,
        DaySetting::EveryNDays(n) => day % (n as int) == anchor % (n as int),
        DaySetting::SpecificDaysWeek(ws) => exists|i: int|
            0 <= i < ws@.len() && weekday_index(ws@[i]) == weekday_index_of(day),
        DaySetting::SpecificDaysMonthFromFirst(vs) => exists|i: int|
            0 <= i < vs@.len() && vs@[i] as int == day_of_month(day) - 1,
        DaySetting::SpecificDaysMonthFromLast(vs) => exists|i: int|
            0 <= i < vs@.len() && vs@[i] as int == days_in_month(year_of(day), month_of(day))
                - day_of_month(day),
        DaySetting::SpecificNthWeekdaysMonth(es) => exists|i: int|
            0 <= i < es@.len() && nth_entry_occurs(es@[i], day),
        DaySetting::DaysPerWeek(k) => block_offset(day, anchor, 7) < k as int,
        DaySetting::DaysPerFortnight(k) => block_offset(day, anchor, 14) < k as int,
        DaySetting::DaysPerMonth(k) => day_of_month(day) <= k as int,
        DaySetting::DaysPerYear(k) => days_before_month(year_of(day), month_of(day)) + day_of_month(
            day,
        ) <= k as int,
    }
}

pub open spec fn week_setting_occurs(s: WeekSetting, start: Weekday, anchor: int, day: int) -> bool {
    weekday_index_of(day) == weekday_index(start) && match s {
        WeekSetting::EveryWeek => true,
        WeekSetting::EveryNWeeks(n) => week_number(day, weekday_index(start)) % (n as int)
            == week_number(anchor, weekday_index(start)) % (n as int),
        WeekSetting::SpecificWeeksOfMonthFromFirst(vs) => exists|i: int|
            0 <= i < vs@.len() && vs@[i] as int == (day_of_month(day) - 1) / 7 + 1,
        WeekSetting::SpecificWeeksOfMonthFromLast(vs) => exists|i: int|
            0 <= i < vs@.len() && vs@[i] as int == (days_in_month(year_of(day), month_of(day))
                - day_of_month(day)) / 7 + 1,
        WeekSetting::WeeksPerMonth(k) => (day_of_month(day) - 1) / 7 + 1 <= k as int,
    }
}

pub open spec fn month_setting_occurs(s: MonthSetting, anchor: int, day: int) -> bool {
    day_of_month(day) == 1 && match s {
        MonthSetting::EveryMonth => true,
        MonthSetting::EveryNMonths(n) => month_count(day) % (n as int) == month_count(anchor) % (
        n as int),
        MonthSetting::SpecificMonths(ms) => exists|i: int|
            0 <= i < ms@.len() && month_index(ms@[i]) == month_of(day),
    }
}

/// Whether the rule fires on day index `day`, with interval phase taken from
/// `anchor`. Year rules fire on the first day of their start month each year.
pub open spec fn occurs(c: PeriodicityConfig, anchor: int, day: int) -> bool {
    match c {
        PeriodicityConfig::Day(dc) => day_setting_occurs(dc.day_setting, anchor, day),
        PeriodicityConfig::Week(wc) => week_setting_occurs(
            wc.week_setting,
            wc.week_start,
            anchor,
            day,
        ),
        PeriodicityConfig::Month(mc) => month_setting_occurs(mc.month_setting, anchor, day),
        PeriodicityConfig::Year(yc) => month_of(day) == month_index(yc.year_start) && day_of_month(
            day,
        ) == 1,
        PeriodicityConfig::Custom(cc) => contains_instant(cc.dates@, day),
        PeriodicityConfig::Unique(u) => day == u.date as int,
    }
}

fn contains_weekday_index(ws: &Vec<Weekday>, wd: u32) -> (r: bool)
    ensures
        r == exists|i: int| 0 <= i < ws@.len() && weekday_index(ws@[i]) == wd as int,
{
    let n = ws.len();
    for i in 0..n
        invariant
            n == ws@.len(),
            forall|j: int| 0 <= j < i ==> weekday_index(ws@[j]) != wd as int,
    {
        if ws[i].index() == wd {
            assert(weekday_index(ws@[i as int]) == wd as int);
            return true;
        }
    }
    false
}

fn contains_u8_value(vs: &Vec<u8>, t: u32) -> (r: bool)
    ensures
        r == exists|i: int| 0 <= i < vs@.len() && vs@[i] as int == t as int,
{
    let n = vs.len();
    for i in 0..n
        invariant
            n == vs@.len(),
            forall|j: int| 0 <= j < i ==> vs@[j] as int != t as int,
    {
        if vs[i] as u32 == t {
            assert(vs@[i as int] as int == t as int);
            return true;
        }
    }
    false
}

fn contains_u32_value(vs: &Vec<u32>, t: u32) -> (r: bool)
    ensures
        r == contains_instant(vs@, t as int),
{
    let n = vs.len();
    for i in 0..n
        invariant
            n == vs@.len(),
            forall|j: int| 0 <= j < i ==> vs@[j] as int != t as int,
    {
        if vs[i] == t {
            assert(vs@[i as int] as int == t as int);
            return true;
        }
    }
    false
}

fn contains_month_index(ms: &Vec<MonthOfYear>, t: u32) -> (r: bool)
    ensures
        r == exists|i: int| 0 <= i < ms@.len() && month_index(ms@[i]) == t as int,
{
    let n = ms.len();
    for i in 0..n
        invariant
            n == ms@.len(),
            forall|j: int| 0 <= j < i ==> month_index(ms@[j]) != t as int,
    {
        if ms[i].index() == t {
            assert(month_index(ms@[i as int]) == t as int);
            return true;
        }
    }
    false
}

fn nth_any_matches(es: &Vec<SpecificDayMonth>, wd: u32, kf: u32, kl: u32, day: Ghost<int>) -> (r:
    bool)
    requires
        wd as int == weekday_index_of(day@),
        kf as int == (day_of_month(day@) - 1) / 7 + 1,
        kl as int == (days_in_month(year_of(day@), month_of(day@)) - day_of_month(day@)) / 7 + 1,
    ensures
        r == exists|i: int| 0 <= i < es@.len() && nth_entry_occurs(es@[i], day@),
{
    let n = es.len();
    for i in 0..n
        invariant
            n == es@.len(),
            wd as int == weekday_index_of(day@),
            kf as int == (day_of_month(day@) - 1) / 7 + 1,
            kl as int == (days_in_month(year_of(day@), month_of(day@)) - day_of_month(day@)) / 7
                + 1,
            forall|j: int| 0 <= j < i ==> !nth_entry_occurs(es@[j], day@),
    {
        let e = es[i];
        let hit = if e.weekday.index() == wd {
            match e.position {
                SpecificDayMonthSetting::MonthWeekFromFirst(k) => k as u32 == kf,
                SpecificDayMonthSetting::MonthWeekFromLast(k) => k as u32 == kl,
            }
        } else {
            false
        };
        if hit {
            assert(nth_entry_occurs(es@[i as int], day@));
            return true;
        }
        assert(!nth_entry_occurs(es@[i as int], day@));
    }
    false
}

/// Days of year `y` strictly before month `m`, as a machine integer.
fn month_prefix_length(y: u32, m: u32) -> (r: u32)
    requires
        1 <= m <= 12,
    ensures
        r as int == days_before_month(y as int, m as int),
        r <= 366,
{
    let mut acc: u32 = 0;
    let mut mm: u32 = 1;
    proof {
        lemma_months_cover_year(y as int);
    }
    while mm < m
        invariant
            1 <= mm <= m <= 12,
            acc as int == days_before_month(y as int, mm as int),
            days_before_month(y as int, 13) == days_in_year(y as int),
        decreases m - mm,
    {
        proof {
            lemma_days_before_month_mono(y as int, mm as int + 1, 13);
        }
        acc = acc + month_length(y, mm);
        mm = mm + 1;
    }
    proof {
        lemma_days_before_month_mono(y as int, m as int, 13);
    }
    acc
}

fn block_offset_of(day: u32, anchor: u32, len: u32) -> (r: u32)
    requires
        1 <= len,
    ensures
        r as int == block_offset(day as int, anchor as int, len as int),
        r < len,
{
    ((day as u64 + (len as u64 - anchor as u64 % len as u64)) % len as u64) as u32
}

fn week_number_of(day: u32, ws: u32) -> (r: u64)
    requires
        ws < 7,
    ensures
        r as int == week_number(day as int, ws as int),
{
    (day as u64 + 10 - ws as u64) / 7
}

/// Whether the rule fires on `day`, given the civil date of `day` and the
/// year and month of the anchor.
fn occurs_on(
    c: &PeriodicityConfig,
    anchor: u32,
    ay: u32,
    am: u32,
    day: u32,
    y: u32,
    m: u32,
    d: u32,
) -> (r: bool)
    requires
        valid_config(*c),
        valid_date(y as int, m as int, d as int),
        day_number(y as int, m as int, d as int) == day as int,
        ay as int == year_of(anchor as int),
        am as int == month_of(anchor as int),
    ensures
        r == occurs(*c, anchor as int, day as int),
{
    proof {
        lemma_date_of_day_number(y as int, m as int, d as int);
    }
    match c {
        PeriodicityConfig::Day(dc) => {
            match &dc.day_setting {
                DaySetting::EveryDay => true,
                DaySetting::EveryNDays(n) => day % (*n as u32) == anchor % (*n as u32),
                DaySetting::SpecificDaysWeek(ws) => {
                    let wd = weekday_of(day);
                    contains_weekday_index(ws, wd)
                },
                DaySetting::SpecificDaysMonthFromFirst(vs) => contains_u8_value(vs, d - 1),
                DaySetting::SpecificDaysMonthFromLast(vs) => {
                    let dim = month_length(y, m);
                    contains_u8_value(vs, dim - d)
                },
                DaySetting::SpecificNthWeekdaysMonth(es) => {
                    let wd = weekday_of(day);
                    let dim = month_length(y, m);
                    let kf = (d - 1) / 7 + 1;
                    let kl = (dim - d) / 7 + 1;
                    nth_any_matches(es, wd, kf, kl, Ghost(day as int))
                },
                DaySetting::DaysPerWeek(k) => block_offset_of(day, anchor, 7) < *k as u32,
                DaySetting::DaysPerFortnight(k) => block_offset_of(day, anchor, 14) < *k as u32,
                DaySetting::DaysPerMonth(k) => d <= *k as u32,
                DaySetting::DaysPerYear(k) => {
                    let doy = month_prefix_length(y, m) + d;
                    doy <= *k as u32
                },
            }
        },
        PeriodicityConfig::Week(wc) => {
            let ws = wc.week_start.index();
            let wd = weekday_of(day);
            if wd != ws {
                assert(!week_setting_occurs(wc.week_setting, wc.week_start, anchor as int,
                day as int));
                false
            } else {
                match &wc.week_setting {
                    WeekSetting::EveryWeek => true,
                    WeekSetting::EveryNWeeks(n) => {
                        let wn_day = week_number_of(day, ws);
                        let wn_anchor = week_number_of(anchor, ws);
                        wn_day % (*n as u64) == wn_anchor % (*n as u64)
                    },
                    WeekSetting::SpecificWeeksOfMonthFromFirst(vs) => {
                        let kf = (d - 1) / 7 + 1;
                        contains_u8_value(vs, kf)
                    },
                    WeekSetting::SpecificWeeksOfMonthFromLast(vs) => {
                        let dim = month_length(y, m);
                        let kl = (dim - d) / 7 + 1;
                        contains_u8_value(vs, kl)
                    },
                    WeekSetting::WeeksPerMonth(k) => (d - 1) / 7 + 1 <= *k as u32,
                }
            }
        },
        PeriodicityConfig::Month(mc) => {
            if d != 1 {
                assert(!month_setting_occurs(mc.month_setting, anchor as int, day as int));
                false
            } else {
                match &mc.month_setting {
                    MonthSetting::EveryMonth => true,
                    MonthSetting::EveryNMonths(n) => {
                        proof {
                            lemma_day_number_of_date(day as int);
                            lemma_day_number_of_date(anchor as int);
                            lemma_days_before_year_linear(y as int);
                            lemma_days_before_year_linear(ay as int);
                            lemma_days_before_month_mono(y as int, 1, m as int);
                            lemma_days_before_month_mono(ay as int, 1, am as int);
                        }
                        let mc_day = (y as u64 - EPOCH_YEAR as u64) * 12 + (m as u64 - 1);
                        let mc_anchor = (ay as u64 - EPOCH_YEAR as u64) * 12 + (am as u64 - 1);
                        mc_day % (*n as u64) == mc_anchor % (*n as u64)
                    },
                    MonthSetting::SpecificMonths(ms) => contains_month_index(ms, m),
                }
            }
        },
        PeriodicityConfig::Year(yc) => m == yc.year_start.index() && d == 1,
        PeriodicityConfig::Custom(cc) => contains_u32_value(&cc.dates, day),
        PeriodicityConfig::Unique(u) => day == u.date,
    }
}

/// A one-shot rule fires exactly on its own instant: together with the
/// contract of `resolve`, the window `[from, to)` yields `[d]` when
/// `from <= d < to` and nothing otherwise.
pub proof fn law_unique_occurrence(u: crate::periodicity::UniqueConfig, anchor: int, day: int)
    ensures
        occurs(PeriodicityConfig::Unique(u), anchor, day) <==> day == u.date as int,
{
}

/// An explicit-dates rule fires exactly on its listed instants, whatever
/// order they were given in: together with the contract of `resolve`, the
/// expansion over a window is the ascending subset of the listed dates that
/// fall inside it.
pub proof fn law_custom_occurrence(c: crate::periodicity::CustomConfig, anchor: int, day: int)
    ensures
        occurs(PeriodicityConfig::Custom(c), anchor, day) <==> contains_instant(c.dates@, day),
{
}

/// An every-N-days rule anchored at `a` fires on `day` exactly when
/// `(day - a) % n == 0`: membership is decided by congruence from the
/// anchor, and no in-window day satisfying it is omitted by `resolve`.
pub proof fn law_every_n_days(rep: u8, n: u16, anchor: int, day: int)
    requires
        1 <= n,
    ensures
        occurs(
            PeriodicityConfig::Day(
                crate::periodicity::DayConfig {
                    rep_per_day: rep,
                    day_setting: DaySetting::EveryNDays(n),
                },
            ),
            anchor,
            day,
        ) <==> (day - anchor) % (n as int) == 0,
{
    vstd::arithmetic::div_mod::lemma_mod_equivalence(day, anchor, n as int);
}

/// A day-of-month rule fires only on days its month actually has: the
/// matched entry always names the day of the month of the occurrence, which
/// never exceeds the month's length. A short month yields no occurrence for
/// an entry past its end — days are skipped, never clamped.
pub proof fn law_day_of_month_respects_month_length(
    rep: u8,
    vs: Vec<u8>,
    anchor: int,
    day: int,
)
    requires
        0 <= day,
        occurs(
            PeriodicityConfig::Day(
                crate::periodicity::DayConfig {
                    rep_per_day: rep,
                    day_setting: DaySetting::SpecificDaysMonthFromFirst(vs),
                },
            ),
            anchor,
            day,
        ),
    ensures
        exists|i: int|
            0 <= i < vs@.len() && vs@[i] as int + 1 == day_of_month(day) && vs@[i] as int + 1
                <= days_in_month(year_of(day), month_of(day)),
{
    lemma_day_number_of_date(day);
    let i = choose|i: int| 0 <= i < vs@.len() && vs@[i] as int == day_of_month(day) - 1;
    assert(vs@[i] as int + 1 <= days_in_month(year_of(day), month_of(day)));
}

/// An nth-weekday rule with position k from the month's start fires only on
/// a day of month at least `7 * (k - 1) + 1`: a month whose k-th occurrence
/// of the weekday does not exist (the fifth Monday of a four-Monday month)
/// yields no occurrence rather than an error.
pub proof fn law_nth_weekday_position_bound(e: SpecificDayMonth, k: u8, day: int)
    requires
        0 <= day,
        e.position == SpecificDayMonthSetting::MonthWeekFromFirst(k),
        nth_entry_occurs(e, day),
    ensures
        day_of_month(day) >= 7 * (k as int - 1) + 1,
        day_of_month(day) <= 7 * (k as int - 1) + 7,
{
    lemma_day_number_of_date(day);
    let dom = day_of_month(day);
    assert((dom - 1) / 7 == k as int - 1);
    vstd::arithmetic::div_mod::lemma_fundamental_div_mod(dom - 1, 7);
    vstd::arithmetic::div_mod::lemma_mod_bound(dom - 1, 7);
}

pub open spec fn strictly_ascending(s: Seq<u32>) -> bool {
    forall|i: int, j: int| 0 <= i < j < s.len() ==> s[i] < s[j]
}

/// Expands the rule over the half-open window `[from, to)`.
///
/// The result is the strictly ascending sequence of exactly those day
/// indices in the window on which `occurs` holds. A malformed window
/// (`from >= to`) is rejected, and a `Periodicity` that does not satisfy the
/// validator — impossible for builder-made values — is reported rather than
/// silently expanded.
pub fn resolve(p: &Periodicity, from: u32, to: u32) -> (r: Result<Vec<u32>, ResolverError>)
    ensures
        from >= to ==> r == Result::<Vec<u32>, ResolverError>::Err(ResolverError::InvalidWindow),
        from < to && !valid_config(p.spec_config()) ==> r == Result::<
            Vec<u32>,
            ResolverError,
        >::Err(ResolverError::InvalidState),
        from < to && valid_config(p.spec_config()) ==> r is Ok,
        r is Ok ==> strictly_ascending(r->Ok_0@),
        r is Ok ==> forall|i: int|
            0 <= i < r->Ok_0@.len() ==> from <= #[trigger] r->Ok_0@[i] < to && occurs(
                p.spec_config(),
                p.spec_anchor() as int,
                r->Ok_0@[i] as int,
            ),
        r is Ok ==> forall|dd: u32|
            from <= dd < to && #[trigger] occurs(p.spec_config(), p.spec_anchor() as int, dd as int)
                ==> exists|j: int| 0 <= j < r->Ok_0@.len() && r->Ok_0@[j] == dd,
{
    if from >= to {
        return Err(ResolverError::InvalidWindow);
    }
    let cfg = p.config();
    match validate(cfg) {
        Err(_) => Err(ResolverError::InvalidState),
        Ok(_) => {
            let anchor = p.anchor();
            let (ay, am, _ad) = date_of(anchor);
            let mut out: Vec<u32> = Vec::new();
            let start = date_of(from);
            let mut y = start.0;
            let mut m = start.1;
            let mut d = start.2;
            let mut i: u32 = from;
            while i < to
                invariant
                    from <= i <= to,
                    valid_config(*cfg),
                    *cfg == p.spec_config(),
                    anchor == p.spec_anchor(),
                    ay as int == year_of(anchor as int),
                    am as int == month_of(anchor as int),
                    i < to ==> valid_date(y as int, m as int, d as int) && day_number(
                        y as int,
                        m as int,
                        d as int,
                    ) == i as int,
                    forall|j: int|
                        0 <= j < out@.len() ==> from <= #[trigger] out@[j] < i && occurs(
                            *cfg,
                            anchor as int,
                            out@[j] as int,
                        ),
                    strictly_ascending(out@),
                    forall|dd: u32|
                        from <= dd < i && #[trigger] occurs(*cfg, anchor as int, dd as int)
                            ==> exists|j: int| 0 <= j < out@.len() && out@[j] == dd,
                decreases to - i,
            {
                let fired = occurs_on(cfg, anchor, ay, am, i, y, m, d);
                let ghost pre = out@;
                if fired {
                    out.push(i);
                }
                proof {
                    assert forall|dd: u32|
                        from <= dd < i + 1 && #[trigger] occurs(
                            *cfg,
                            anchor as int,
                            dd as int,
                        ) implies exists|j: int| 0 <= j < out@.len() && out@[j] == dd by {
                        if dd < i {
                            let j = choose|j: int| 0 <= j < pre.len() && pre[j] == dd;
                            assert(out@[j] == dd);
                        } else {
                            assert(out@[out@.len() - 1] == i);
                        }
                    }
                }
                i = i + 1;
                if i < to {
                    proof {
                        lemma_days_before_month_mono(y as int, 1, m as int);
                        lemma_days_before_year_linear(y as int);
                        if y == u32::MAX {
                            assert(365 * (u32::MAX - EPOCH_YEAR) > u32::MAX);
                            assert(false);
                        }
                    }
                    let next = next_date(y, m, d);
                    y = next.0;
                    m = next.1;
                    d = next.2;
                }
            }
            proof {
                assert forall|dd: u32|
                    from <= dd < to && #[trigger] occurs(
                        p.spec_config(),
                        p.spec_anchor() as int,
                        dd as int,
                    ) implies exists|j: int| 0 <= j < out@.len() && out@[j] == dd by {
                    assert(occurs(*cfg, anchor as int, dd as int));
                }
            }
            Ok(out)
        },
    }
}

} // verus!
