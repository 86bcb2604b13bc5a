//! The recurrence data model: a closed set of six mutually exclusive
//! recurrence shapes, each carrying its own parameters.
//!
//! Instants are day indices (see `calendar`). A `Periodicity` pairs a
//! configuration with the anchor instant from which interval-based rules
//! (every N days, weeks or months) compute their phase; it is only built
//! through `PeriodicityBuilder`, so a `Periodicity` value always satisfies the
//! validator.

use vstd::prelude::*;

use crate::validate::valid_config;

verus! {

#[derive(Clone, Copy, Debug, PartialEq, Eq, Structural)]
pub enum Weekday {
    Monday,
    Tuesday,
    Wednesday,
    Thursday,
    Friday,
    Saturday,
    Sunday,
}

/// Index of a weekday, 0 = Monday .. 6 = Sunday, matching
/// `calendar::weekday_index_of`.
pub open spec fn weekday_index(w: Weekday) -> int {
    match w {
        Weekday::Monday => 0,
        Weekday::Tuesday => 1,
        Weekday::Wednesday => 2,
        Weekday::Thursday => 3,
        Weekday::Friday => 4,
        Weekday::Saturday => 5,
        Weekday::Sunday => 6,
    }
}

impl Weekday {
    pub fn index(&self) -> (r: u32)
        ensures
            r == weekday_index(*self),
    {
        match *self {
            Weekday::Monday => 0,
            Weekday::Tuesday => 1,
            Weekday::Wednesday => 2,
            Weekday::Thursday => 3,
            Weekday::Friday => 4,
            Weekday::Saturday => 5,
            Weekday::Sunday => 6,
        }
    }
}

#[derive(Clone, Copy, Debug, PartialEq, Eq, Structural)]
pub enum MonthOfYear {
    January,
    February,
    March,
    April,
    May,
    June,
    July,
    August,
    September,
    October,
    November,
    December,
}

/// Index of a month, 1 = January .. 12 = December, matching
/// `calendar::month_of`.
pub open spec fn month_index(m: MonthOfYear) -> int {
    match m {
        MonthOfYear::January => 1,
        MonthOfYear::February => 2,
        MonthOfYear::March => 3,
        MonthOfYear::April => 4,
        MonthOfYear::May => 5,
        MonthOfYear::June => 6,
        MonthOfYear::July => 7,
        MonthOfYear::August => 8,
        MonthOfYear::September => 9,
        MonthOfYear::October => 10,
        MonthOfYear::November => 11,
        MonthOfYear::December => 12,
    }
}

impl MonthOfYear {
    pub fn index(&self) -> (r: u32)
        ensures
            r == month_index(*self),
    {
        match *self {
            MonthOfYear::January => 1,
            MonthOfYear::February => 2,
            MonthOfYear::March => 3,
            MonthOfYear::April => 4,
            MonthOfYear::May => 5,
            MonthOfYear::June => 6,
            MonthOfYear::July => 7,
            MonthOfYear::August => 8,
            MonthOfYear::September => 9,
            MonthOfYear::October => 10,
            MonthOfYear::November => 11,
            MonthOfYear::December => 12,
        }
    }
}

/// Position of a weekday within its month: the k-th occurrence counted from
/// the first day (1..5) or from the last day (1..5).
#[derive(Clone, Copy, Debug, PartialEq, Eq, Structural)]
pub enum SpecificDayMonthSetting {
    MonthWeekFromFirst(u8),
    MonthWeekFromLast(u8),
}

/// One "nth weekday of the month" pattern entry: a position paired with a
/// weekday (for instance: second Tuesday).
#[derive(Clone, Copy, Debug, PartialEq, Eq, Structural)]
pub struct SpecificDayMonth {
    pub position: SpecificDayMonthSetting,
    pub weekday: Weekday,
}

#[derive(Clone, Debug)]
pub enum DaySetting {
    /// Every calendar day.
    EveryDay,
    /// Every N days from the anchor (1..366).
    EveryNDays(u16),
    /// Days whose weekday is in the set (at most 7 distinct weekdays).
    SpecificDaysWeek(Vec<Weekday>),
    /// Days of the month counted from the month's first day (0 = first day,
    /// values 0..30); a day absent from a short month is skipped.
    SpecificDaysMonthFromFirst(Vec<u8>),
    /// Days of the month counted back from the month's last day (0 = last
    /// day, values 0..30); a day absent from a short month is skipped.
    SpecificDaysMonthFromLast(Vec<u8>),
    /// Nth-weekday-of-month patterns; a position a month does not reach
    /// yields no occurrence in that month.
    SpecificNthWeekdaysMonth(Vec<SpecificDayMonth>),
    /// K days per week (1..7), placed on the first K days of each 7-day
    /// block counted from the anchor.
    DaysPerWeek(u8),
    /// K days per fortnight (1..14), placed on the first K days of each
    /// 14-day block counted from the anchor.
    DaysPerFortnight(u8),
    /// K days per month (1..31), placed on the first K days of each calendar
    /// month.
    DaysPerMonth(u8),
    /// K days per year (1..366), placed on the first K days of each calendar
    /// year.
    DaysPerYear(u16),
}

#[derive(Clone, Debug)]
pub enum WeekSetting {
    /// Every week.
    EveryWeek,
    /// Every N weeks from the week holding the anchor (1..52).
    EveryNWeeks(u8),
    /// Weeks of the month counted from the first (values 1..4): the week
    /// whose start day is the k-th occurrence of the week-start weekday.
    SpecificWeeksOfMonthFromFirst(Vec<u8>),
    /// Weeks of the month counted from the last (values 1..4).
    SpecificWeeksOfMonthFromLast(Vec<u8>),
    /// K weeks per month (1..4), placed on the first K weeks of each month.
    WeeksPerMonth(u8),
}

#[derive(Clone, Debug)]
pub enum MonthSetting {
    /// Every month.
    EveryMonth,
    /// Every N months from the month holding the anchor (1..12).
    EveryNMonths(u8),
    /// A set of named months (at most 12, no duplicates).
    SpecificMonths(Vec<MonthOfYear>),
}

#[derive(Clone, Debug)]
pub struct DayConfig {
    pub rep_per_day: u8,
    pub day_setting: DaySetting,
}

#[derive(Clone, Debug)]
pub struct WeekConfig {
    pub rep_per_week: u8,
    pub week_start: Weekday,
    pub week_setting: WeekSetting,
}

#[derive(Clone, Debug)]
pub struct MonthConfig {
    pub rep_per_month: u8,
    pub month_setting: MonthSetting,
}

#[derive(Clone, Debug)]
pub struct YearConfig {
    pub rep_per_year: u8,
    pub year_start: MonthOfYear,
}

#[derive(Clone, Debug)]
pub struct CustomConfig {
    /// Explicit instants, in any order, without duplicates.
    pub dates: Vec<u32>,
}

#[derive(Clone, Debug)]
pub struct UniqueConfig {
    /// The single instant of a one-shot task.
    pub date: u32,
}

#[derive(Clone, Debug)]
pub enum PeriodicityConfig {
    Day(DayConfig),
    Week(WeekConfig),
    Month(MonthConfig),
    Unique(UniqueConfig),
    Custom(CustomConfig),
    Year(YearConfig),
}

/// The recurrence descriptor attached to a task. Only `PeriodicityBuilder`
/// constructs one, so the configuration always passes the validator.
#[derive(Clone, Debug)]
pub struct Periodicity {
    config: PeriodicityConfig,
    anchor: u32,
}

impl Periodicity {
    pub closed spec fn spec_config(self) -> PeriodicityConfig {
        self.config
    }

    pub closed spec fn spec_anchor(self) -> u32 {
        self.anchor
    }

    /// A `Periodicity` is well formed when its configuration satisfies the
    /// validator.
    pub open spec fn wf(self) -> bool {
        valid_config(self.spec_config())
    }

    pub(crate) fn from_parts(config: PeriodicityConfig, anchor: u32) -> (r: Periodicity)
        requires
            valid_config(config),
        ensures
            r.spec_config() == config,
            r.spec_anchor() == anchor,
            r.wf(),
    {
        Periodicity { config, anchor }
    }

    pub fn config(&self) -> (r: &PeriodicityConfig)
        ensures
            *r == self.spec_config(),
    {
        &self.config
    }

    pub fn anchor(&self) -> (r: u32)
        ensures
            r == self.spec_anchor(),
    {
        self.anchor
    }
}

} // verus!
