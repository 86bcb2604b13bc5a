//! The guided constructor for `Periodicity` values.
//!
//! `PeriodicityBuilder::new` selects one of the six recurrence shapes; the
//! `with_*` calls populate that shape's parameters; `build` consumes the
//! builder and either returns a validated `Periodicity` or the error for the
//! first failing constraint — never a partially valid value. A parameter
//! foreign to the chosen shape, or a required one left unset, is rejected
//! before validation. A rule built without `with_anchor` phases its interval
//! settings from day 0.

use vstd::prelude::*;

use crate::periodicity::{
    DayConfig, DaySetting, MonthConfig, MonthOfYear, MonthSetting, Periodicity, PeriodicityConfig,
    UniqueConfig, CustomConfig, WeekConfig, Weekday, WeekSetting, YearConfig,
};
use crate::validate::{
    lemma_validate_ok_iff_valid, valid_config, validate, validate_spec, ConfigField,
    InconsistencyReason, ValidationError,
};

verus! {

#[derive(Clone, Copy, Debug, PartialEq, Eq, Structural)]
pub enum PeriodicityKind {
    Day,
    Week,
    Month,
    Year,
    Custom,
    Unique,
}

pub struct PeriodicityBuilder {
    pub kind: PeriodicityKind,
    pub repetitions: Option<u8>,
    pub day_setting: Option<DaySetting>,
    pub week_start: Option<Weekday>,
    pub week_setting: Option<WeekSetting>,
    pub month_setting: Option<MonthSetting>,
    pub year_start: Option<MonthOfYear>,
    pub dates: Option<Vec<u32>>,
    pub date: Option<u32>,
    pub anchor: Option<u32>,
}

/// The first populated parameter that the chosen shape has no use for.
pub open spec fn unexpected_field(b: PeriodicityBuilder) -> Option<ConfigField> {
    match b.kind {
        PeriodicityKind::Day => if b.week_start is Some {
            Some(ConfigField::WeekStartDay)
        } else if b.week_setting is Some {
            Some(ConfigField::WeekSettingChoice)
        } else if b.month_setting is Some {
            Some(ConfigField::MonthSettingChoice)
        } else if b.year_start is Some {
            Some(ConfigField::YearStartMonth)
        } else if b.dates is Some {
            Some(ConfigField::CustomDates)
        } else if b.date is Some {
            Some(ConfigField::UniqueDate)
        } else {
            None
        },
        PeriodicityKind::Week => if b.day_setting is Some {
            Some(ConfigField::DaySettingChoice)
        } else if b.month_setting is Some {
            Some(ConfigField::MonthSettingChoice)
        } else if b.year_start is Some {
            Some(ConfigField::YearStartMonth)
        } else if b.dates is Some {
            Some(ConfigField::CustomDates)
        } else if b.date is Some {
            Some(ConfigField::UniqueDate)
        } else {
            None
        },
        PeriodicityKind::Month => if b.day_setting is Some {
            Some(ConfigField::DaySettingChoice)
        } else if b.week_start is Some {
            Some(ConfigField::WeekStartDay)
        } else if b.week_setting is Some {
            Some(ConfigField::WeekSettingChoice)
        } else if b.year_start is Some {
            Some(ConfigField::YearStartMonth)
        } else if b.dates is Some {
            Some(ConfigField::CustomDates)
        } else if b.date is Some {
            Some(ConfigField::UniqueDate)
        } else {
            None
        },
        PeriodicityKind::Year => if b.day_setting is Some {
            Some(ConfigField::DaySettingChoice)
        } else if b.week_start is Some {
            Some(ConfigField::WeekStartDay)
        } else if b.week_setting is Some {
            Some(ConfigField::WeekSettingChoice)
        } else if b.month_setting is Some {
            Some(ConfigField::MonthSettingChoice)
        } else if b.dates is Some {
            Some(ConfigField::CustomDates)
        } else if b.date is Some {
            Some(ConfigField::UniqueDate)
        } else {
            None
        },
        PeriodicityKind::Custom => if b.repetitions is Some {
            Some(ConfigField::RepPerDay)
        } else if b.day_setting is Some {
            Some(ConfigField::DaySettingChoice)
        } else if b.week_start is Some {
            Some(ConfigField::WeekStartDay)
        } else if b.week_setting is Some {
            Some(ConfigField::WeekSettingChoice)
        } else if b.month_setting is Some {
            Some(ConfigField::MonthSettingChoice)
        } else if b.year_start is Some {
            Some(ConfigField::YearStartMonth)
        } else if b.date is Some {
            Some(ConfigField::UniqueDate)
        } else {
            None
        },
        PeriodicityKind::Unique => if b.repetitions is Some {
            Some(ConfigField::RepPerDay)
        } else if b.day_setting is Some {
            Some(ConfigField::DaySettingChoice)
        } else if b.week_start is Some {
            Some(ConfigField::WeekStartDay)
        } else if b.week_setting is Some {
            Some(ConfigField::WeekSettingChoice)
        } else if b.month_setting is Some {
            Some(ConfigField::MonthSettingChoice)
        } else if b.year_start is Some {
            Some(ConfigField::YearStartMonth)
        } else if b.dates is Some {
            Some(ConfigField::CustomDates)
        } else {
            None
        },
    }
}

/// The first parameter the chosen shape needs that was never supplied.
pub open spec fn missing_field(b: PeriodicityBuilder) -> Option<ConfigField> {
    match b.kind {
        PeriodicityKind::Day => if b.repetitions is None {
            Some(ConfigField::RepPerDay)
        } else if b.day_setting is None {
            Some(ConfigField::DaySettingChoice)
        } else {
            None
        },
        PeriodicityKind::Week => if b.repetitions is None {
            Some(ConfigField::RepPerWeek)
        } else if b.week_start is None {
            Some(ConfigField::WeekStartDay)
        } else if b.week_setting is None {
            Some(ConfigField::WeekSettingChoice)
        } else {
            None
        },
        PeriodicityKind::Month => if b.repetitions is None {
            Some(ConfigField::RepPerMonth)
        } else if b.month_setting is None {
            Some(ConfigField::MonthSettingChoice)
        } else {
            None
        },
        PeriodicityKind::Year => if b.repetitions is None {
            Some(ConfigField::RepPerYear)
        } else if b.year_start is None {
            Some(ConfigField::YearStartMonth)
        } else {
            None
        },
        PeriodicityKind::Custom => if b.dates is None {
            Some(ConfigField::CustomDates)
        } else {
            None
        },
        PeriodicityKind::Unique => if b.date is None {
            Some(ConfigField::UniqueDate)
        } else {
            None
        },
    }
}

/// The configuration a complete builder assembles.
pub open spec fn assembled_config(b: PeriodicityBuilder) -> PeriodicityConfig {
    match b.kind {
        PeriodicityKind::Day => PeriodicityConfig::Day(
            DayConfig { rep_per_day: b.repetitions.unwrap(), day_setting: b.day_setting.unwrap() },
        ),
        PeriodicityKind::Week => PeriodicityConfig::Week(
            WeekConfig {
                rep_per_week: b.repetitions.unwrap(),
                week_start: b.week_start.unwrap(),
                week_setting: b.week_setting.unwrap(),
            },
        ),
        PeriodicityKind::Month => PeriodicityConfig::Month(
            MonthConfig {
                rep_per_month: b.repetitions.unwrap(),
                month_setting: b.month_setting.unwrap(),
            },
        ),
        PeriodicityKind::Year => PeriodicityConfig::Year(
            YearConfig { rep_per_year: b.repetitions.unwrap(), year_start: b.year_start.unwrap() },
        ),
        PeriodicityKind::Custom => PeriodicityConfig::Custom(
            CustomConfig { dates: b.dates.unwrap() },
        ),
        PeriodicityKind::Unique => PeriodicityConfig::Unique(
            UniqueConfig { date: b.date.unwrap() },
        ),
    }
}

pub open spec fn assembled_anchor(b: PeriodicityBuilder) -> u32 {
    match b.anchor {
        Some(a) => a,
        None => 0,
    }
}

impl PeriodicityBuilder {
    /// Starts an empty builder for one of the six shapes.
    pub fn new(kind: PeriodicityKind) -> (r: Self)
        ensures
            r == (PeriodicityBuilder {
                kind,
                repetitions: None,
                day_setting: None,
                week_start: None,
                week_setting: None,
                month_setting: None,
                year_start: None,
                dates: None,
                date: None,
                anchor: None,
            }),
    {
        PeriodicityBuilder {
            kind,
            repetitions: None,
            day_setting: None,
            week_start: None,
            week_setting: None,
            month_setting: None,
            year_start: None,
            dates: None,
            date: None,
            anchor: None,
        }
    }

    /// The repetitions-per-unit count of the chosen shape.
    pub fn with_repetitions(self, rep: u8) -> (r: Self)
        ensures
            r == (PeriodicityBuilder { repetitions: Some(rep), ..self }),
    {
        PeriodicityBuilder { repetitions: Some(rep), ..self }
    }

    pub fn with_day_setting(self, s: DaySetting) -> (r: Self)
        ensures
            r == (PeriodicityBuilder { day_setting: Some(s), ..self }),
    {
        PeriodicityBuilder { day_setting: Some(s), ..self }
    }

    pub fn with_week_start(self, w: Weekday) -> (r: Self)
        ensures
            r == (PeriodicityBuilder { week_start: Some(w), ..self }),
    {
        PeriodicityBuilder { week_start: Some(w), ..self }
    }

    pub fn with_week_setting(self, s: WeekSetting) -> (r: Self)
        ensures
            r == (PeriodicityBuilder { week_setting: Some(s), ..self }),
    {
        PeriodicityBuilder { week_setting: Some(s), ..self }
    }

    pub fn with_month_setting(self, s: MonthSetting) -> (r: Self)
        ensures
            r == (PeriodicityBuilder { month_setting: Some(s), ..self }),
    {
        PeriodicityBuilder { month_setting: Some(s), ..self }
    }

    pub fn with_year_start(self, m: MonthOfYear) -> (r: Self)
        ensures
            r == (PeriodicityBuilder { year_start: Some(m), ..self }),
    {
        PeriodicityBuilder { year_start: Some(m), ..self }
    }

    pub fn with_dates(self, dates: Vec<u32>) -> (r: Self)
        ensures
            r == (PeriodicityBuilder { dates: Some(dates), ..self }),
    {
        PeriodicityBuilder { dates: Some(dates), ..self }
    }

    pub fn with_date(self, date: u32) -> (r: Self)
        ensures
            r == (PeriodicityBuilder { date: Some(date), ..self }),
    {
        PeriodicityBuilder { date: Some(date), ..self }
    }

    /// The instant interval rules phase from.
    pub fn with_anchor(self, anchor: u32) -> (r: Self)
        ensures
            r == (PeriodicityBuilder { anchor: Some(anchor), ..self }),
    {
        PeriodicityBuilder { anchor: Some(anchor), ..self }
    }

    /// Assembles and validates the configuration. The builder never emits an
    /// invalid value: whenever the result is `Ok`, feeding the carried
    /// configuration back through the validator succeeds.
    pub fn build(self) -> (r: Result<Periodicity, ValidationError>)
        ensures
            unexpected_field(self) matches Some(f) ==> r == Result::<
                Periodicity,
                ValidationError,
            >::Err(
                ValidationError::Inconsistent {
                    reason: InconsistencyReason::UnexpectedParameter(f),
                },
            ),
            unexpected_field(self) is None ==> (missing_field(self) matches Some(f) ==> r
                == Result::<Periodicity, ValidationError>::Err(
                ValidationError::Inconsistent { reason: InconsistencyReason::MissingParameter(f) },
            )),
            unexpected_field(self) is None && missing_field(self) is None ==> {
                &&& validate_spec(assembled_config(self)) matches Err(e) ==> r == Result::<
                    Periodicity,
                    ValidationError,
                >::Err(e)
                &&& valid_config(assembled_config(self)) ==> {
                    &&& r is Ok
                    &&& r->Ok_0.spec_config() == assembled_config(self)
                    &&& r->Ok_0.spec_anchor() == assembled_anchor(self)
                }
            },
            r is Ok ==> r->Ok_0.wf() && validate_spec(r->Ok_0.spec_config()) is Ok,
    {
        let unexpected = self.first_unexpected();
        if let Some(f) = unexpected {
            return Err(
                ValidationError::Inconsistent {
                    reason: InconsistencyReason::UnexpectedParameter(f),
                },
            );
        }
        let missing = self.first_missing();
        if let Some(f) = missing {
            return Err(
                ValidationError::Inconsistent { reason: InconsistencyReason::MissingParameter(f) },
            );
        }
        let anchor = match self.anchor {
            Some(a) => a,
            None => 0,
        };
        let config = match self.kind {
            PeriodicityKind::Day => PeriodicityConfig::Day(
                DayConfig {
                    rep_per_day: self.repetitions.unwrap(),
                    day_setting: self.day_setting.unwrap(),
                },
            ),
            PeriodicityKind::Week => PeriodicityConfig::Week(
                WeekConfig {
                    rep_per_week: self.repetitions.unwrap(),
                    week_start: self.week_start.unwrap(),
                    week_setting: self.week_setting.unwrap(),
                },
            ),
            PeriodicityKind::Month => PeriodicityConfig::Month(
                MonthConfig {
                    rep_per_month: self.repetitions.unwrap(),
                    month_setting: self.month_setting.unwrap(),
                },
            ),
            PeriodicityKind::Year => PeriodicityConfig::Year(
                YearConfig {
                    rep_per_year: self.repetitions.unwrap(),
                    year_start: self.year_start.unwrap(),
                },
            ),
            PeriodicityKind::Custom => PeriodicityConfig::Custom(
                CustomConfig { dates: self.dates.unwrap() },
            ),
            PeriodicityKind::Unique => PeriodicityConfig::Unique(
                UniqueConfig { date: self.date.unwrap() },
            ),
        };
        match validate(&config) {
            Err(e) => Err(e),
            Ok(_) => {
                proof {
                    lemma_validate_ok_iff_valid(config);
                }
                Ok(Periodicity::from_parts(config, anchor))
            },
        }
    }

    fn first_unexpected(&self) -> (r: Option<ConfigField>)
        ensures
            r == unexpected_field(*self),
    {
        let surplus_rep = matches!(self.kind, PeriodicityKind::Custom | PeriodicityKind::Unique);
        if surplus_rep && self.repetitions.is_some() {
            return Some(ConfigField::RepPerDay);
        }
        if !matches!(self.kind, PeriodicityKind::Day) && self.day_setting.is_some() {
            return Some(ConfigField::DaySettingChoice);
        }
        if !matches!(self.kind, PeriodicityKind::Week) && self.week_start.is_some() {
            return Some(ConfigField::WeekStartDay);
        }
        if !matches!(self.kind, PeriodicityKind::Week) && self.week_setting.is_some() {
            return Some(ConfigField::WeekSettingChoice);
        }
        if !matches!(self.kind, PeriodicityKind::Month) && self.month_setting.is_some() {
            return Some(ConfigField::MonthSettingChoice);
        }
        if !matches!(self.kind, PeriodicityKind::Year) && self.year_start.is_some() {
            return Some(ConfigField::YearStartMonth);
        }
        if !matches!(self.kind, PeriodicityKind::Custom) && self.dates.is_some() {
            return Some(ConfigField::CustomDates);
        }
        if !matches!(self.kind, PeriodicityKind::Unique) && self.date.is_some() {
            return Some(ConfigField::UniqueDate);
        }
        None
    }

    fn first_missing(&self) -> (r: Option<ConfigField>)
        ensures
            r == missing_field(*self),
    {
        match self.kind {
            PeriodicityKind::Day => {
                if self.repetitions.is_none() {
                    Some(ConfigField::RepPerDay)
                } else if self.day_setting.is_none() {
                    Some(ConfigField::DaySettingChoice)
                } else {
                    None
                }
            },
            PeriodicityKind::Week => {
                if self.repetitions.is_none() {
                    Some(ConfigField::RepPerWeek)
                } else if self.week_start.is_none() {
                    Some(ConfigField::WeekStartDay)
                } else if self.week_setting.is_none() {
                    Some(ConfigField::WeekSettingChoice)
                } else {
                    None
                }
            },
            PeriodicityKind::Month => {
                if self.repetitions.is_none() {
                    Some(ConfigField::RepPerMonth)
                } else if self.month_setting.is_none() {
                    Some(ConfigField::MonthSettingChoice)
                } else {
                    None
                }
            },
            PeriodicityKind::Year => {
                if self.repetitions.is_none() {
                    Some(ConfigField::RepPerYear)
                } else if self.year_start.is_none() {
                    Some(ConfigField::YearStartMonth)
                } else {
                    None
                }
            },
            PeriodicityKind::Custom => {
                if self.dates.is_none() {
                    Some(ConfigField::CustomDates)
                } else {
                    None
                }
            },
            PeriodicityKind::Unique => {
                if self.date.is_none() {
                    Some(ConfigField::UniqueDate)
                } else {
                    None
                }
            },
        }
    }
}

} // verus!
