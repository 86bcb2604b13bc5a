//! The configuration validator: range checks, set checks and cross-field
//! consistency checks over a `PeriodicityConfig`, failing fast on the first
//! violated constraint.

use vstd::prelude::*;

use crate::periodicity::{
    DayConfig, DaySetting, MonthConfig, MonthSetting, PeriodicityConfig, SpecificDayMonth,
    SpecificDayMonthSetting, WeekConfig, WeekSetting,
};

verus! {

/// The parameter a `ValidationError` points at.
#[derive(Clone, Copy, Debug, PartialEq, Eq, Structural)]
pub enum ConfigField {
    RepPerDay,
    RepPerWeek,
    RepPerMonth,
    RepPerYear,
    EveryNDaysInterval,
    EveryNWeeksInterval,
    EveryNMonthsInterval,
    DaysOfWeekSet,
    DaysOfMonthFromFirstSet,
    DaysOfMonthFromLastSet,
    NthWeekdayPosition,
    NthWeekdaySet,
    DaysPerWeekCount,
    DaysPerFortnightCount,
    DaysPerMonthCount,
    DaysPerYearCount,
    WeeksOfMonthFromFirstSet,
    WeeksOfMonthFromLastSet,
    WeeksPerMonthCount,
    MonthsSet,
    CustomDates,
    UniqueDate,
    DaySettingChoice,
    WeekSettingChoice,
    MonthSettingChoice,
    WeekStartDay,
    YearStartMonth,
}

/// Why a configuration is contradictory even though every scalar is in range.
#[derive(Clone, Copy, Debug, PartialEq, Eq, Structural)]
pub enum InconsistencyReason {
    /// `repetitions-per-unit` exceeds the cardinality of the named set.
    RepetitionsExceedNamedSet,
    /// `repetitions-per-unit` exceeds the declared count of a count-only
    /// setting.
    RepetitionsExceedDeclaredCount,
    /// A parameter the chosen shape needs was never supplied (builder).
    MissingParameter(ConfigField),
    /// A parameter foreign to the chosen shape was supplied (builder).
    UnexpectedParameter(ConfigField),
}

#[derive(Clone, Copy, Debug, PartialEq, Eq, Structural)]
pub enum ValidationError {
    OutOfRange { field: ConfigField, min: u16, max: u16, got: u16 },
    EmptySet { field: ConfigField },
    Duplicate { field: ConfigField },
    Inconsistent { reason: InconsistencyReason },
}

pub open spec fn no_dups<T>(s: Seq<T>) -> bool {
    forall|i: int, j: int| 0 <= i < j < s.len() ==> s[i] != s[j]
}

pub open spec fn all_in_range(s: Seq<u8>, lo: int, hi: int) -> bool {
    forall|i: int| 0 <= i < s.len() ==> lo <= #[trigger] s[i] <= hi
}

/// The first element outside `lo..=hi`, scanning left to right.
pub open spec fn first_out_of_range(s: Seq<u8>, lo: int, hi: int) -> Option<u8>
    decreases s.len(),
{
    if s.len() == 0 {
        None
    } else if !(lo <= s[0] <= hi) {
        Some(s[0])
    } else {
        first_out_of_range(s.drop_first(), lo, hi)
    }
}

/// The position count of an nth-weekday entry, from either end.
pub open spec fn nth_position_value(e: SpecificDayMonth) -> u8 {
    match e.position {
        SpecificDayMonthSetting::MonthWeekFromFirst(k) => k,
        SpecificDayMonthSetting::MonthWeekFromLast(k) => k,
    }
}

pub open spec fn nth_positions(s: Seq<SpecificDayMonth>) -> Seq<u8> {
    s.map_values(|e: SpecificDayMonth| nth_position_value(e))
}

pub open spec fn valid_day_setting(rep: u8, s: DaySetting) -> bool {
    match s {
        DaySetting::EveryDay => true,
        DaySetting::EveryNDays(n) => 1 <= n <= 366,
        DaySetting::SpecificDaysWeek(ws) => {
            &&& ws@.len() > 0
            &&& no_dups(ws@)
            &&& rep <= ws@.len()
        },
        DaySetting::SpecificDaysMonthFromFirst(vs) => {
            &&& all_in_range(vs@, 0, 30)
            &&& vs@.len() > 0
            &&& no_dups(vs@)
            &&& rep <= vs@.len()
        },
        DaySetting::SpecificDaysMonthFromLast(vs) => {
            &&& all_in_range(vs@, 0, 30)
            &&& vs@.len() > 0
            &&& no_dups(vs@)
            &&& rep <= vs@.len()
        },
        DaySetting::SpecificNthWeekdaysMonth(es) => {
            &&& all_in_range(nth_positions(es@), 1, 5)
            &&& es@.len() > 0
            &&& no_dups(es@)
            &&& rep <= es@.len()
        },
        DaySetting::DaysPerWeek(k) => 1 <= k <= 7 && rep <= k,
        DaySetting::DaysPerFortnight(k) => 1 <= k <= 14 && rep <= k,
        DaySetting::DaysPerMonth(k) => 1 <= k <= 31 && rep <= k,
        DaySetting::DaysPerYear(k) => 1 <= k <= 366 && rep <= k,
    }
}

pub open spec fn valid_week_setting(rep: u8, s: WeekSetting) -> bool {
    match s {
        WeekSetting::EveryWeek => true,
        WeekSetting::EveryNWeeks(n) => 1 <= n <= 52,
        WeekSetting::SpecificWeeksOfMonthFromFirst(vs) => {
            &&& all_in_range(vs@, 1, 4)
            &&& vs@.len() > 0
            &&& no_dups(vs@)
            &&& rep <= vs@.len()
        },
        WeekSetting::SpecificWeeksOfMonthFromLast(vs) => {
            &&& all_in_range(vs@, 1, 4)
            &&& vs@.len() > 0
            &&& no_dups(vs@)
            &&& rep <= vs@.len()
        },
        WeekSetting::WeeksPerMonth(k) => 1 <= k <= 4 && rep <= k,
    }
}

pub open spec fn valid_month_setting(rep: u8, s: MonthSetting) -> bool {
    match s {
        MonthSetting::EveryMonth => true,
        MonthSetting::EveryNMonths(n) => 1 <= n <= 12,
        MonthSetting::SpecificMonths(ms) => {
            &&& ms@.len() > 0
            &&& no_dups(ms@)
            &&& rep <= ms@.len()
        },
    }
}

/// A configuration the validator accepts.
pub open spec fn valid_config(c: PeriodicityConfig) -> bool {
    match c {
        PeriodicityConfig::Day(dc) => dc.rep_per_day >= 1 && valid_day_setting(
            dc.rep_per_day,
            dc.day_setting,
        ),
        PeriodicityConfig::Week(wc) => wc.rep_per_week >= 1 && valid_week_setting(
            wc.rep_per_week,
            wc.week_setting,
        ),
        PeriodicityConfig::Month(mc) => mc.rep_per_month >= 1 && valid_month_setting(
            mc.rep_per_month,
            mc.month_setting,
        ),
        PeriodicityConfig::Year(yc) => yc.rep_per_year >= 1,
        PeriodicityConfig::Custom(cc) => cc.dates@.len() > 0 && no_dups(cc.dates@),
        PeriodicityConfig::Unique(_) => true,
    }
}

/// Result of checking a named set: first the range scan (where one applies),
/// then emptiness, duplicates, and the cross-field repetition bound.
pub open spec fn check_set_steps(
    rep: u8,
    len: int,
    dups: bool,
    field: ConfigField,
) -> Result<(), ValidationError> {
    if len == 0 {
        Err(ValidationError::EmptySet { field })
    } else if dups {
        Err(ValidationError::Duplicate { field })
    } else if rep > len {
        Err(
            ValidationError::Inconsistent {
                reason: InconsistencyReason::RepetitionsExceedNamedSet,
            },
        )
    } else {
        Ok(())
    }
}

pub open spec fn check_count_steps(
    rep: u8,
    k: u16,
    cap: u16,
    field: ConfigField,
) -> Result<(), ValidationError> {
    if !(1 <= k <= cap) {
        Err(ValidationError::OutOfRange { field, min: 1, max: cap, got: k })
    } else if rep as u16 > k {
        Err(
            ValidationError::Inconsistent {
                reason: InconsistencyReason::RepetitionsExceedDeclaredCount,
            },
        )
    } else {
        Ok(())
    }
}

pub open spec fn validate_day_spec(dc: DayConfig) -> Result<(), ValidationError> {
    if dc.rep_per_day < 1 {
        Err(
            ValidationError::OutOfRange {
                field: ConfigField::RepPerDay,
                min: 1,
                max: 255,
                got: dc.rep_per_day as u16,
            },
        )
    } else {
        match dc.day_setting {
            DaySetting::EveryDay => Ok(()),
            DaySetting::EveryNDays(n) => {
                if !(1 <= n <= 366) {
                    Err(
                        ValidationError::OutOfRange {
                            field: ConfigField::EveryNDaysInterval,
                            min: 1,
                            max: 366,
                            got: n,
                        },
                    )
                } else {
                    Ok(())
                }
            },
            DaySetting::SpecificDaysWeek(ws) => check_set_steps(
                dc.rep_per_day,
                ws@.len() as int,
                !no_dups(ws@),
                ConfigField::DaysOfWeekSet,
            ),
            DaySetting::SpecificDaysMonthFromFirst(vs) => {
                match first_out_of_range(vs@, 0, 30) {
                    Some(v) => Err(
                        ValidationError::OutOfRange {
                            field: ConfigField::DaysOfMonthFromFirstSet,
                            min: 0,
                            max: 30,
                            got: v as u16,
                        },
                    ),
                    None => check_set_steps(
                        dc.rep_per_day,
                        vs@.len() as int,
                        !no_dups(vs@),
                        ConfigField::DaysOfMonthFromFirstSet,
                    ),
                }
            },
            DaySetting::SpecificDaysMonthFromLast(vs) => {
                match first_out_of_range(vs@, 0, 30) {
                    Some(v) => Err(
                        ValidationError::OutOfRange {
                            field: ConfigField::DaysOfMonthFromLastSet,
                            min: 0,
                            max: 30,
                            got: v as u16,
                        },
                    ),
                    None => check_set_steps(
                        dc.rep_per_day,
                        vs@.len() as int,
                        !no_dups(vs@),
                        ConfigField::DaysOfMonthFromLastSet,
                    ),
                }
            },
            DaySetting::SpecificNthWeekdaysMonth(es) => {
                match first_out_of_range(nth_positions(es@), 1, 5) {
                    Some(v) => Err(
                        ValidationError::OutOfRange {
                            field: ConfigField::NthWeekdayPosition,
                            min: 1,
                            max: 5,
                            got: v as u16,
                        },
                    ),
                    None => check_set_steps(
                        dc.rep_per_day,
                        es@.len() as int,
                        !no_dups(es@),
                        ConfigField::NthWeekdaySet,
                    ),
                }
            },
            DaySetting::DaysPerWeek(k) => check_count_steps(
                dc.rep_per_day,
                k as u16,
                7,
                ConfigField::DaysPerWeekCount,
            ),
            DaySetting::DaysPerFortnight(k) => check_count_steps(
                dc.rep_per_day,
                k as u16,
                14,
                ConfigField::DaysPerFortnightCount,
            ),
            DaySetting::DaysPerMonth(k) => check_count_steps(
                dc.rep_per_day,
                k as u16,
                31,
                ConfigField::DaysPerMonthCount,
            ),
            DaySetting::DaysPerYear(k) => check_count_steps(
                dc.rep_per_day,
                k,
                366,
                ConfigField::DaysPerYearCount,
            ),
        }
    }
}

pub open spec fn validate_week_spec(wc: WeekConfig) -> Result<(), ValidationError> {
    if wc.rep_per_week < 1 {
        Err(
            ValidationError::OutOfRange {
                field: ConfigField::RepPerWeek,
                min: 1,
                max: 255,
                got: wc.rep_per_week as u16,
            },
        )
    } else {
        match wc.week_setting {
            WeekSetting::EveryWeek => Ok(()),
            WeekSetting::EveryNWeeks(n) => {
                if !(1 <= n <= 52) {
                    Err(
                        ValidationError::OutOfRange {
                            field: ConfigField::EveryNWeeksInterval,
                            min: 1,
                            max: 52,
                            got: n as u16,
                        },
                    )
                } else {
                    Ok(())
                }
            },
            WeekSetting::SpecificWeeksOfMonthFromFirst(vs) => {
                match first_out_of_range(vs@, 1, 4) {
                    Some(v) => Err(
                        ValidationError::OutOfRange {
                            field: ConfigField::WeeksOfMonthFromFirstSet,
                            min: 1,
                            max: 4,
                            got: v as u16,
                        },
                    ),
                    None => check_set_steps(
                        wc.rep_per_week,
                        vs@.len() as int,
                        !no_dups(vs@),
                        ConfigField::WeeksOfMonthFromFirstSet,
                    ),
                }
            },
            WeekSetting::SpecificWeeksOfMonthFromLast(vs) => {
                match first_out_of_range(vs@, 1, 4) {
                    Some(v) => Err(
                        ValidationError::OutOfRange {
                            field: ConfigField::WeeksOfMonthFromLastSet,
                            min: 1,
                            max: 4,
                            got: v as u16,
                        },
                    ),
                    None => check_set_steps(
                        wc.rep_per_week,
                        vs@.len() as int,
                        !no_dups(vs@),
                        ConfigField::WeeksOfMonthFromLastSet,
                    ),
                }
            },
            WeekSetting::WeeksPerMonth(k) => check_count_steps(
                wc.rep_per_week,
                k as u16,
                4,
                ConfigField::WeeksPerMonthCount,
            ),
        }
    }
}

pub open spec fn validate_month_spec(mc: MonthConfig) -> Result<(), ValidationError> {
    if mc.rep_per_month < 1 {
        Err(
            ValidationError::OutOfRange {
                field: ConfigField::RepPerMonth,
                min: 1,
                max: 255,
                got: mc.rep_per_month as u16,
            },
        )
    } else {
        match mc.month_setting {
            MonthSetting::EveryMonth => Ok(()),
            MonthSetting::EveryNMonths(n) => {
                if !(1 <= n <= 12) {
                    Err(
                        ValidationError::OutOfRange {
                            field: ConfigField::EveryNMonthsInterval,
                            min: 1,
                            max: 12,
                            got: n as u16,
                        },
                    )
                } else {
                    Ok(())
                }
            },
            MonthSetting::SpecificMonths(ms) => check_set_steps(
                mc.rep_per_month,
                ms@.len() as int,
                !no_dups(ms@),
                ConfigField::MonthsSet,
            ),
        }
    }
}

/// The validator's verdict, checking in order: scalar ranges, set
/// well-formedness, cross-field consistency.
pub open spec fn validate_spec(c: PeriodicityConfig) -> Result<(), ValidationError> {
    match c {
        PeriodicityConfig::Day(dc) => validate_day_spec(dc),
        PeriodicityConfig::Week(wc) => validate_week_spec(wc),
        PeriodicityConfig::Month(mc) => validate_month_spec(mc),
        PeriodicityConfig::Year(yc) => {
            if yc.rep_per_year < 1 {
                Err(
                    ValidationError::OutOfRange {
                        field: ConfigField::RepPerYear,
                        min: 1,
                        max: 255,
                        got: yc.rep_per_year as u16,
                    },
                )
            } else {
                Ok(())
            }
        },
        PeriodicityConfig::Custom(cc) => {
            if cc.dates@.len() == 0 {
                Err(ValidationError::EmptySet { field: ConfigField::CustomDates })
            } else if !no_dups(cc.dates@) {
                Err(ValidationError::Duplicate { field: ConfigField::CustomDates })
            } else {
                Ok(())
            }
        },
        PeriodicityConfig::Unique(_) => Ok(()),
    }
}

/// The ordered checker accepts exactly the configurations `valid_config`
/// describes: in particular, a configuration that once validated always
/// re-validates.
pub proof fn lemma_validate_ok_iff_valid(c: PeriodicityConfig)
    ensures
        validate_spec(c) is Ok <==> valid_config(c),
{
    match c {
        PeriodicityConfig::Day(dc) => {
            match dc.day_setting {
                DaySetting::SpecificDaysMonthFromFirst(vs) => lemma_first_out_of_range_none(
                    vs@,
                    0,
                    30,
                ),
                DaySetting::SpecificDaysMonthFromLast(vs) => lemma_first_out_of_range_none(
                    vs@,
                    0,
                    30,
                ),
                DaySetting::SpecificNthWeekdaysMonth(es) => lemma_first_out_of_range_none(
                    nth_positions(es@),
                    1,
                    5,
                ),
                _ => {},
            }
        },
        PeriodicityConfig::Week(wc) => {
            match wc.week_setting {
                WeekSetting::SpecificWeeksOfMonthFromFirst(vs) => lemma_first_out_of_range_none(
                    vs@,
                    1,
                    4,
                ),
                WeekSetting::SpecificWeeksOfMonthFromLast(vs) => lemma_first_out_of_range_none(
                    vs@,
                    1,
                    4,
                ),
                _ => {},
            }
        },
        _ => {},
    }
}

/// A clean scan finds nothing out of range, and conversely.
pub proof fn lemma_first_out_of_range_none(s: Seq<u8>, lo: int, hi: int)
    ensures
        first_out_of_range(s, lo, hi) is None <==> all_in_range(s, lo, hi),
    decreases s.len(),
{
    if s.len() > 0 && lo <= s[0] <= hi {
        lemma_first_out_of_range_none(s.drop_first(), lo, hi);
        assert(forall|i: int| 0 <= i < s.drop_first().len() ==> s.drop_first()[i] == s[i + 1]);
        if all_in_range(s.drop_first(), lo, hi) {
            assert forall|i: int| 0 <= i < s.len() implies lo <= #[trigger] s[i] <= hi by {
                if i > 0 {
                    assert(s.drop_first()[i - 1] == s[i]);
                }
            }
        }
    }
}

fn scan_out_of_range(v: &Vec<u8>, lo: u8, hi: u8) -> (r: Option<u8>)
    ensures
        r == first_out_of_range(v@, lo as int, hi as int),
{
    let n = v.len();
    assert(v@.skip(0) =~= v@);
    for i in 0..n
        invariant
            n == v@.len(),
            first_out_of_range(v@, lo as int, hi as int) == first_out_of_range(
                v@.skip(i as int),
                lo as int,
                hi as int,
            ),
    {
        let x = v[i];
        assert(v@.skip(i as int)[0] == v@[i as int]);
        if x < lo || x > hi {
            return Some(x);
        }
        assert(v@.skip(i as int).drop_first() =~= v@.skip(i as int + 1));
    }
    None
}

fn has_dup_u8(v: &Vec<u8>) -> (r: bool)
    ensures
        r == !no_dups(v@),
{
    let n = v.len();
    for i in 0..n
        invariant
            n == v@.len(),
            forall|a: int, b: int| 0 <= a < b < v@.len() && a < i ==> v@[a] != v@[b],
    {
        for j in i + 1..n
            invariant
                i < n == v@.len(),
                forall|a: int, b: int| 0 <= a < b < v@.len() && a < i ==> v@[a] != v@[b],
                forall|b: int| i < b < j ==> v@[i as int] != v@[b],
        {
            if v[i] == v[j] {
                assert(!no_dups(v@)) by {
                    assert(v@[i as int] == v@[j as int]);
                }
                return true;
            }
        }
    }
    false
}

fn has_dup_u32(v: &Vec<u32>) -> (r: bool)
    ensures
        r == !no_dups(v@),
{
    let n = v.len();
    for i in 0..n
        invariant
            n == v@.len(),
            forall|a: int, b: int| 0 <= a < b < v@.len() && a < i ==> v@[a] != v@[b],
    {
        for j in i + 1..n
            invariant
                i < n == v@.len(),
                forall|a: int, b: int| 0 <= a < b < v@.len() && a < i ==> v@[a] != v@[b],
                forall|b: int| i < b < j ==> v@[i as int] != v@[b],
        {
            if v[i] == v[j] {
                assert(!no_dups(v@)) by {
                    assert(v@[i as int] == v@[j as int]);
                }
                return true;
            }
        }
    }
    false
}

fn has_dup_weekday(v: &Vec<crate::periodicity::Weekday>) -> (r: bool)
    ensures
        r == !no_dups(v@),
{
    let n = v.len();
    for i in 0..n
        invariant
            n == v@.len(),
            forall|a: int, b: int| 0 <= a < b < v@.len() && a < i ==> v@[a] != v@[b],
    {
        for j in i + 1..n
            invariant
                i < n == v@.len(),
                forall|a: int, b: int| 0 <= a < b < v@.len() && a < i ==> v@[a] != v@[b],
                forall|b: int| i < b < j ==> v@[i as int] != v@[b],
        {
            if v[i] == v[j] {
                assert(!no_dups(v@)) by {
                    assert(v@[i as int] == v@[j as int]);
                }
                return true;
            }
        }
    }
    false
}

fn has_dup_month(v: &Vec<crate::periodicity::MonthOfYear>) -> (r: bool)
    ensures
        r == !no_dups(v@),
{
    let n = v.len();
    for i in 0..n
        invariant
            n == v@.len(),
            forall|a: int, b: int| 0 <= a < b < v@.len() && a < i ==> v@[a] != v@[b],
    {
        for j in i + 1..n
            invariant
                i < n == v@.len(),
                forall|a: int, b: int| 0 <= a < b < v@.len() && a < i ==> v@[a] != v@[b],
                forall|b: int| i < b < j ==> v@[i as int] != v@[b],
        {
            if v[i] == v[j] {
                assert(!no_dups(v@)) by {
                    assert(v@[i as int] == v@[j as int]);
                }
                return true;
            }
        }
    }
    false
}

fn has_dup_nth(v: &Vec<SpecificDayMonth>) -> (r: bool)
    ensures
        r == !no_dups(v@),
{
    let n = v.len();
    for i in 0..n
        invariant
            n == v@.len(),
            forall|a: int, b: int| 0 <= a < b < v@.len() && a < i ==> v@[a] != v@[b],
    {
        for j in i + 1..n
            invariant
                i < n == v@.len(),
                forall|a: int, b: int| 0 <= a < b < v@.len() && a < i ==> v@[a] != v@[b],
                forall|b: int| i < b < j ==> v@[i as int] != v@[b],
        {
            if v[i] == v[j] {
                assert(!no_dups(v@)) by {
                    assert(v@[i as int] == v@[j as int]);
                }
                return true;
            }
        }
    }
    false
}

fn scan_nth_out_of_range(v: &Vec<SpecificDayMonth>, lo: u8, hi: u8) -> (r: Option<u8>)
    ensures
        r == first_out_of_range(nth_positions(v@), lo as int, hi as int),
{
    let n = v.len();
    assert(nth_positions(v@).skip(0) =~= nth_positions(v@));
    for i in 0..n
        invariant
            n == v@.len(),
            first_out_of_range(nth_positions(v@), lo as int, hi as int) == first_out_of_range(
                nth_positions(v@).skip(i as int),
                lo as int,
                hi as int,
            ),
    {
        let x = match v[i].position {
            SpecificDayMonthSetting::MonthWeekFromFirst(k) => k,
            SpecificDayMonthSetting::MonthWeekFromLast(k) => k,
        };
        assert(nth_positions(v@).skip(i as int)[0] == nth_positions(v@)[i as int]);
        assert(nth_positions(v@)[i as int] == nth_position_value(v@[i as int]));
        if x < lo || x > hi {
            return Some(x);
        }
        assert(nth_positions(v@).skip(i as int).drop_first() =~= nth_positions(v@).skip(
            i as int + 1,
        ));
    }
    None
}

fn check_set(rep: u8, len: usize, dups: bool, field: ConfigField) -> (r: Result<
    (),
    ValidationError,
>)
    ensures
        r == check_set_steps(rep, len as int, dups, field),
{
    if len == 0 {
        Err(ValidationError::EmptySet { field })
    } else if dups {
        Err(ValidationError::Duplicate { field })
    } else if rep as usize > len {
        Err(ValidationError::Inconsistent { reason: InconsistencyReason::RepetitionsExceedNamedSet })
    } else {
        Ok(())
    }
}

fn check_count(rep: u8, k: u16, cap: u16, field: ConfigField) -> (r: Result<(), ValidationError>)
    ensures
        r == check_count_steps(rep, k, cap, field),
{
    if k < 1 || k > cap {
        Err(ValidationError::OutOfRange { field, min: 1, max: cap, got: k })
    } else if rep as u16 > k {
        Err(
            ValidationError::Inconsistent {
                reason: InconsistencyReason::RepetitionsExceedDeclaredCount,
            },
        )
    } else {
        Ok(())
    }
}

fn validate_day(dc: &DayConfig) -> (r: Result<(), ValidationError>)
    ensures
        r == validate_day_spec(*dc),
        r is Ok <==> (dc.rep_per_day >= 1 && valid_day_setting(dc.rep_per_day, dc.day_setting)),
{
    if dc.rep_per_day < 1 {
        return Err(
            ValidationError::OutOfRange {
                field: ConfigField::RepPerDay,
                min: 1,
                max: 255,
                got: dc.rep_per_day as u16,
            },
        );
    }
    match &dc.day_setting {
        DaySetting::EveryDay => Ok(()),
        DaySetting::EveryNDays(n) => {
            if *n < 1 || *n > 366 {
                Err(
                    ValidationError::OutOfRange {
                        field: ConfigField::EveryNDaysInterval,
                        min: 1,
                        max: 366,
                        got: *n,
                    },
                )
            } else {
                Ok(())
            }
        },
        DaySetting::SpecificDaysWeek(ws) => {
            let dups = has_dup_weekday(ws);
            check_set(dc.rep_per_day, ws.len(), dups, ConfigField::DaysOfWeekSet)
        },
        DaySetting::SpecificDaysMonthFromFirst(vs) => {
            proof {
                lemma_first_out_of_range_none(vs@, 0, 30);
            }
            match scan_out_of_range(vs, 0, 30) {
                Some(v) => Err(
                    ValidationError::OutOfRange {
                        field: ConfigField::DaysOfMonthFromFirstSet,
                        min: 0,
                        max: 30,
                        got: v as u16,
                    },
                ),
                None => {
                    let dups = has_dup_u8(vs);
                    check_set(dc.rep_per_day, vs.len(), dups, ConfigField::DaysOfMonthFromFirstSet)
                },
            }
        },
        DaySetting::SpecificDaysMonthFromLast(vs) => {
            proof {
                lemma_first_out_of_range_none(vs@, 0, 30);
            }
            match scan_out_of_range(vs, 0, 30) {
                Some(v) => Err(
                    ValidationError::OutOfRange {
                        field: ConfigField::DaysOfMonthFromLastSet,
                        min: 0,
                        max: 30,
                        got: v as u16,
                    },
                ),
                None => {
                    let dups = has_dup_u8(vs);
                    check_set(dc.rep_per_day, vs.len(), dups, ConfigField::DaysOfMonthFromLastSet)
                },
            }
        },
        DaySetting::SpecificNthWeekdaysMonth(es) => {
            proof {
                lemma_first_out_of_range_none(nth_positions(es@), 1, 5);
            }
            match scan_nth_out_of_range(es, 1, 5) {
                Some(v) => Err(
                    ValidationError::OutOfRange {
                        field: ConfigField::NthWeekdayPosition,
                        min: 1,
                        max: 5,
                        got: v as u16,
                    },
                ),
                None => {
                    let dups = has_dup_nth(es);
                    check_set(dc.rep_per_day, es.len(), dups, ConfigField::NthWeekdaySet)
                },
            }
        },
        DaySetting::DaysPerWeek(k) => check_count(
            dc.rep_per_day,
            *k as u16,
            7,
            ConfigField::DaysPerWeekCount,
        ),
        DaySetting::DaysPerFortnight(k) => check_count(
            dc.rep_per_day,
            *k as u16,
            14,
            ConfigField::DaysPerFortnightCount,
        ),
        DaySetting::DaysPerMonth(k) => check_count(
            dc.rep_per_day,
            *k as u16,
            31,
            ConfigField::DaysPerMonthCount,
        ),
        DaySetting::DaysPerYear(k) => check_count(
            dc.rep_per_day,
            *k,
            366,
            ConfigField::DaysPerYearCount,
        ),
    }
}

fn validate_week(wc: &WeekConfig) -> (r: Result<(), ValidationError>)
    ensures
        r == validate_week_spec(*wc),
        r is Ok <==> (wc.rep_per_week >= 1 && valid_week_setting(wc.rep_per_week, wc.week_setting)),
{
    if wc.rep_per_week < 1 {
        return Err(
            ValidationError::OutOfRange {
                field: ConfigField::RepPerWeek,
                min: 1,
                max: 255,
                got: wc.rep_per_week as u16,
            },
        );
    }
    match &wc.week_setting {
        WeekSetting::EveryWeek => Ok(()),
        WeekSetting::EveryNWeeks(n) => {
            if *n < 1 || *n > 52 {
                Err(
                    ValidationError::OutOfRange {
                        field: ConfigField::EveryNWeeksInterval,
                        min: 1,
                        max: 52,
                        got: *n as u16,
                    },
                )
            } else {
                Ok(())
            }
        },
        WeekSetting::SpecificWeeksOfMonthFromFirst(vs) => {
            proof {
                lemma_first_out_of_range_none(vs@, 1, 4);
            }
            match scan_out_of_range(vs, 1, 4) {
                Some(v) => Err(
                    ValidationError::OutOfRange {
                        field: ConfigField::WeeksOfMonthFromFirstSet,
                        min: 1,
                        max: 4,
                        got: v as u16,
                    },
                ),
                None => {
                    let dups = has_dup_u8(vs);
                    check_set(wc.rep_per_week, vs.len(), dups, ConfigField::WeeksOfMonthFromFirstSet)
                },
            }
        },
        WeekSetting::SpecificWeeksOfMonthFromLast(vs) => {
            proof {
                lemma_first_out_of_range_none(vs@, 1, 4);
            }
            match scan_out_of_range(vs, 1, 4) {
                Some(v) => Err(
                    ValidationError::OutOfRange {
                        field: ConfigField::WeeksOfMonthFromLastSet,
                        min: 1,
                        max: 4,
                        got: v as u16,
                    },
                ),
                None => {
                    let dups = has_dup_u8(vs);
                    check_set(wc.rep_per_week, vs.len(), dups, ConfigField::WeeksOfMonthFromLastSet)
                },
            }
        },
        WeekSetting::WeeksPerMonth(k) => check_count(
            wc.rep_per_week,
            *k as u16,
            4,
            ConfigField::WeeksPerMonthCount,
        ),
    }
}

fn validate_month(mc: &MonthConfig) -> (r: Result<(), ValidationError>)
    ensures
        r == validate_month_spec(*mc),
        r is Ok <==> (mc.rep_per_month >= 1 && valid_month_setting(
            mc.rep_per_month,
            mc.month_setting,
        )),
{
    if mc.rep_per_month < 1 {
        return Err(
            ValidationError::OutOfRange {
                field: ConfigField::RepPerMonth,
                min: 1,
                max: 255,
                got: mc.rep_per_month as u16,
            },
        );
    }
    match &mc.month_setting {
        MonthSetting::EveryMonth => Ok(()),
        MonthSetting::EveryNMonths(n) => {
            if *n < 1 || *n > 12 {
                Err(
                    ValidationError::OutOfRange {
                        field: ConfigField::EveryNMonthsInterval,
                        min: 1,
                        max: 12,
                        got: *n as u16,
                    },
                )
            } else {
                Ok(())
            }
        },
        MonthSetting::SpecificMonths(ms) => {
            let dups = has_dup_month(ms);
            check_set(mc.rep_per_month, ms.len(), dups, ConfigField::MonthsSet)
        },
    }
}

/// Checks a configuration against every range, set and cross-field rule,
/// failing fast: the result is `Ok` exactly on the configurations
/// `valid_config` describes, and on a rejection the error identifies the
/// first violated constraint.
pub fn validate(c: &PeriodicityConfig) -> (r: Result<(), ValidationError>)
    ensures
        r == validate_spec(*c),
        r is Ok <==> valid_config(*c),
{
    match c {
        PeriodicityConfig::Day(dc) => validate_day(dc),
        PeriodicityConfig::Week(wc) => validate_week(wc),
        PeriodicityConfig::Month(mc) => validate_month(mc),
        PeriodicityConfig::Year(yc) => {
            if yc.rep_per_year < 1 {
                Err(
                    ValidationError::OutOfRange {
                        field: ConfigField::RepPerYear,
                        min: 1,
                        max: 255,
                        got: yc.rep_per_year as u16,
                    },
                )
            } else {
                Ok(())
            }
        },
        PeriodicityConfig::Custom(cc) => {
            if cc.dates.len() == 0 {
                Err(ValidationError::EmptySet { field: ConfigField::CustomDates })
            } else {
                let dups = has_dup_u32(&cc.dates);
                if dups {
                    Err(ValidationError::Duplicate { field: ConfigField::CustomDates })
                } else {
                    Ok(())
                }
            }
        },
        PeriodicityConfig::Unique(_) => Ok(()),
    }
}

} // verus!
