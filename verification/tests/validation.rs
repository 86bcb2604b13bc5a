use tsadaash::periodicity::{
    DayConfig, DaySetting, MonthConfig, MonthOfYear, MonthSetting, PeriodicityConfig, UniqueConfig,
    CustomConfig, WeekConfig, Weekday, WeekSetting, YearConfig,
};
use tsadaash::periodicity::{SpecificDayMonth, SpecificDayMonthSetting};
use tsadaash::validate::{validate, ConfigField, InconsistencyReason, ValidationError};

fn day_cfg(rep: u8, s: DaySetting) -> PeriodicityConfig {
    PeriodicityConfig::Day(DayConfig { rep_per_day: rep, day_setting: s })
}

#[test]
fn every_n_days_zero_rejected() {
    let r = validate(&day_cfg(1, DaySetting::EveryNDays(0)));
    assert_eq!(
        r,
        Err(ValidationError::OutOfRange {
            field: ConfigField::EveryNDaysInterval,
            min: 1,
            max: 366,
            got: 0,
        })
    );
}

#[test]
fn every_n_days_four_hundred_rejected() {
    let r = validate(&day_cfg(1, DaySetting::EveryNDays(400)));
    assert_eq!(
        r,
        Err(ValidationError::OutOfRange {
            field: ConfigField::EveryNDaysInterval,
            min: 1,
            max: 366,
            got: 400,
        })
    );
}

#[test]
fn every_n_days_in_range_accepted() {
    assert_eq!(validate(&day_cfg(1, DaySetting::EveryNDays(1))), Ok(()));
    assert_eq!(validate(&day_cfg(1, DaySetting::EveryNDays(366))), Ok(()));
}

#[test]
fn zero_repetitions_rejected() {
    let r = validate(&day_cfg(0, DaySetting::EveryDay));
    assert_eq!(
        r,
        Err(ValidationError::OutOfRange {
            field: ConfigField::RepPerDay,
            min: 1,
            max: 255,
            got: 0,
        })
    );
}

#[test]
fn week_repetitions_exceeding_named_weeks_inconsistent() {
    let cfg = PeriodicityConfig::Week(WeekConfig {
        rep_per_week: 3,
        week_start: Weekday::Monday,
        week_setting: WeekSetting::SpecificWeeksOfMonthFromFirst(vec![1]),
    });
    assert_eq!(
        validate(&cfg),
        Err(ValidationError::Inconsistent {
            reason: InconsistencyReason::RepetitionsExceedNamedSet,
        })
    );
}

#[test]
fn day_repetitions_exceeding_named_weekdays_inconsistent() {
    let cfg = day_cfg(3, DaySetting::SpecificDaysWeek(vec![Weekday::Tuesday]));
    assert_eq!(
        validate(&cfg),
        Err(ValidationError::Inconsistent {
            reason: InconsistencyReason::RepetitionsExceedNamedSet,
        })
    );
}

#[test]
fn count_only_declared_count_bounds() {
    // The declared count must not exceed the unit's capacity…
    let r = validate(&day_cfg(1, DaySetting::DaysPerWeek(8)));
    assert!(matches!(r, Err(ValidationError::OutOfRange { field: ConfigField::DaysPerWeekCount, .. })));
    // …and repetitions must not exceed the declared count.
    let r = validate(&day_cfg(4, DaySetting::DaysPerWeek(3)));
    assert_eq!(
        r,
        Err(ValidationError::Inconsistent {
            reason: InconsistencyReason::RepetitionsExceedDeclaredCount,
        })
    );
    assert_eq!(validate(&day_cfg(3, DaySetting::DaysPerWeek(3))), Ok(()));
}

#[test]
fn empty_sets_rejected() {
    let r = validate(&day_cfg(1, DaySetting::SpecificDaysWeek(vec![])));
    assert_eq!(r, Err(ValidationError::EmptySet { field: ConfigField::DaysOfWeekSet }));
    let r = validate(&PeriodicityConfig::Custom(CustomConfig { dates: vec![] }));
    assert_eq!(r, Err(ValidationError::EmptySet { field: ConfigField::CustomDates }));
}

#[test]
fn duplicate_sets_rejected() {
    let r = validate(&day_cfg(1, DaySetting::SpecificDaysWeek(vec![
        Weekday::Friday,
        Weekday::Friday,
    ])));
    assert_eq!(r, Err(ValidationError::Duplicate { field: ConfigField::DaysOfWeekSet }));
    let r = validate(&PeriodicityConfig::Custom(CustomConfig { dates: vec![7, 3, 7] }));
    assert_eq!(r, Err(ValidationError::Duplicate { field: ConfigField::CustomDates }));
}

#[test]
fn day_of_month_value_range() {
    let r = validate(&day_cfg(1, DaySetting::SpecificDaysMonthFromFirst(vec![5, 31])));
    assert_eq!(
        r,
        Err(ValidationError::OutOfRange {
            field: ConfigField::DaysOfMonthFromFirstSet,
            min: 0,
            max: 30,
            got: 31,
        })
    );
    assert_eq!(
        validate(&day_cfg(1, DaySetting::SpecificDaysMonthFromFirst(vec![0, 30]))),
        Ok(())
    );
}

#[test]
fn week_of_month_value_range() {
    let cfg = PeriodicityConfig::Week(WeekConfig {
        rep_per_week: 1,
        week_start: Weekday::Sunday,
        week_setting: WeekSetting::SpecificWeeksOfMonthFromFirst(vec![5]),
    });
    assert!(matches!(
        validate(&cfg),
        Err(ValidationError::OutOfRange { field: ConfigField::WeeksOfMonthFromFirstSet, got: 5, .. })
    ));
}

#[test]
fn month_settings_checked() {
    let cfg = PeriodicityConfig::Month(MonthConfig {
        rep_per_month: 1,
        month_setting: MonthSetting::EveryNMonths(13),
    });
    assert!(matches!(
        validate(&cfg),
        Err(ValidationError::OutOfRange { field: ConfigField::EveryNMonthsInterval, got: 13, .. })
    ));
    let cfg = PeriodicityConfig::Month(MonthConfig {
        rep_per_month: 1,
        month_setting: MonthSetting::SpecificMonths(vec![MonthOfYear::March, MonthOfYear::March]),
    });
    assert_eq!(
        validate(&cfg),
        Err(ValidationError::Duplicate { field: ConfigField::MonthsSet })
    );
}

#[test]
fn year_unique_and_custom_accepted() {
    let cfg = PeriodicityConfig::Year(YearConfig {
        rep_per_year: 1,
        year_start: MonthOfYear::April,
    });
    assert_eq!(validate(&cfg), Ok(()));
    let cfg = PeriodicityConfig::Unique(UniqueConfig { date: 12345 });
    assert_eq!(validate(&cfg), Ok(()));
    let cfg = PeriodicityConfig::Custom(CustomConfig { dates: vec![9, 4, 200] });
    assert_eq!(validate(&cfg), Ok(()));
}

#[test]
fn nth_weekday_position_range() {
    let entry = |k: u8| SpecificDayMonth {
        position: SpecificDayMonthSetting::MonthWeekFromFirst(k),
        weekday: Weekday::Monday,
    };
    let r = validate(&day_cfg(1, DaySetting::SpecificNthWeekdaysMonth(vec![entry(0)])));
    assert!(matches!(
        r,
        Err(ValidationError::OutOfRange { field: ConfigField::NthWeekdayPosition, got: 0, .. })
    ));
    let r = validate(&day_cfg(1, DaySetting::SpecificNthWeekdaysMonth(vec![entry(5)])));
    assert_eq!(r, Ok(()));
}
