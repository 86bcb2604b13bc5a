use tsadaash::builder::{PeriodicityBuilder, PeriodicityKind};
use tsadaash::periodicity::{DaySetting, MonthOfYear, MonthSetting, Weekday, WeekSetting};
use tsadaash::validate::{validate, ConfigField, InconsistencyReason, ValidationError};

#[test]
fn built_config_always_revalidates() {
    let built = vec![
        PeriodicityBuilder::new(PeriodicityKind::Day)
            .with_repetitions(2)
            .with_day_setting(DaySetting::SpecificDaysWeek(vec![
                Weekday::Monday,
                Weekday::Thursday,
            ]))
            .with_anchor(100)
            .build()
            .unwrap(),
        PeriodicityBuilder::new(PeriodicityKind::Week)
            .with_repetitions(1)
            .with_week_start(Weekday::Sunday)
            .with_week_setting(WeekSetting::EveryNWeeks(4))
            .build()
            .unwrap(),
        PeriodicityBuilder::new(PeriodicityKind::Month)
            .with_repetitions(1)
            .with_month_setting(MonthSetting::SpecificMonths(vec![MonthOfYear::December]))
            .build()
            .unwrap(),
        PeriodicityBuilder::new(PeriodicityKind::Year)
            .with_repetitions(1)
            .with_year_start(MonthOfYear::January)
            .build()
            .unwrap(),
        PeriodicityBuilder::new(PeriodicityKind::Custom)
            .with_dates(vec![44, 7, 19])
            .build()
            .unwrap(),
        PeriodicityBuilder::new(PeriodicityKind::Unique).with_date(77).build().unwrap(),
    ];
    for p in &built {
        assert_eq!(validate(p.config()), Ok(()));
    }
}

#[test]
fn builder_keeps_anchor() {
    let p = PeriodicityBuilder::new(PeriodicityKind::Day)
        .with_repetitions(1)
        .with_day_setting(DaySetting::EveryNDays(5))
        .with_anchor(123)
        .build()
        .unwrap();
    assert_eq!(p.anchor(), 123);
    let p = PeriodicityBuilder::new(PeriodicityKind::Unique).with_date(9).build().unwrap();
    assert_eq!(p.anchor(), 0);
}

#[test]
fn missing_parameters_rejected() {
    let r = PeriodicityBuilder::new(PeriodicityKind::Day).build();
    assert_eq!(
        r.err(),
        Some(ValidationError::Inconsistent {
            reason: InconsistencyReason::MissingParameter(ConfigField::RepPerDay),
        })
    );
    let r = PeriodicityBuilder::new(PeriodicityKind::Week)
        .with_repetitions(1)
        .with_week_start(Weekday::Monday)
        .build();
    assert_eq!(
        r.err(),
        Some(ValidationError::Inconsistent {
            reason: InconsistencyReason::MissingParameter(ConfigField::WeekSettingChoice),
        })
    );
    let r = PeriodicityBuilder::new(PeriodicityKind::Unique).build();
    assert_eq!(
        r.err(),
        Some(ValidationError::Inconsistent {
            reason: InconsistencyReason::MissingParameter(ConfigField::UniqueDate),
        })
    );
}

#[test]
fn foreign_parameters_rejected() {
    let r = PeriodicityBuilder::new(PeriodicityKind::Unique)
        .with_repetitions(1)
        .with_date(5)
        .build();
    assert_eq!(
        r.err(),
        Some(ValidationError::Inconsistent {
            reason: InconsistencyReason::UnexpectedParameter(ConfigField::RepPerDay),
        })
    );
    let r = PeriodicityBuilder::new(PeriodicityKind::Day)
        .with_repetitions(1)
        .with_day_setting(DaySetting::EveryDay)
        .with_year_start(MonthOfYear::May)
        .build();
    assert_eq!(
        r.err(),
        Some(ValidationError::Inconsistent {
            reason: InconsistencyReason::UnexpectedParameter(ConfigField::YearStartMonth),
        })
    );
}

#[test]
fn invalid_configuration_surfaces_validator_error() {
    let r = PeriodicityBuilder::new(PeriodicityKind::Day)
        .with_repetitions(1)
        .with_day_setting(DaySetting::EveryNDays(0))
        .build();
    assert_eq!(
        r.err(),
        Some(ValidationError::OutOfRange {
            field: ConfigField::EveryNDaysInterval,
            min: 1,
            max: 366,
            got: 0,
        })
    );
}
