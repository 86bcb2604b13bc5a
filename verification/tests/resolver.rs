use tsadaash::builder::{PeriodicityBuilder, PeriodicityKind};
use tsadaash::calendar::day_number_of;
use tsadaash::periodicity::{
    DaySetting, MonthOfYear, MonthSetting, Periodicity, SpecificDayMonth, SpecificDayMonthSetting,
    Weekday, WeekSetting,
};
use tsadaash::resolve::{resolve, ResolverError};

fn day_rule(rep: u8, s: DaySetting, anchor: u32) -> Periodicity {
    PeriodicityBuilder::new(PeriodicityKind::Day)
        .with_repetitions(rep)
        .with_day_setting(s)
        .with_anchor(anchor)
        .build()
        .unwrap()
}

fn week_rule(rep: u8, start: Weekday, s: WeekSetting, anchor: u32) -> Periodicity {
    PeriodicityBuilder::new(PeriodicityKind::Week)
        .with_repetitions(rep)
        .with_week_start(start)
        .with_week_setting(s)
        .with_anchor(anchor)
        .build()
        .unwrap()
}

fn month_rule(rep: u8, s: MonthSetting, anchor: u32) -> Periodicity {
    PeriodicityBuilder::new(PeriodicityKind::Month)
        .with_repetitions(rep)
        .with_month_setting(s)
        .with_anchor(anchor)
        .build()
        .unwrap()
}

#[test]
fn malformed_window_rejected() {
    let p = day_rule(1, DaySetting::EveryDay, 0);
    assert_eq!(resolve(&p, 5, 5), Err(ResolverError::InvalidWindow));
    assert_eq!(resolve(&p, 9, 2), Err(ResolverError::InvalidWindow));
}

#[test]
fn every_day_fills_window() {
    let p = day_rule(1, DaySetting::EveryDay, 0);
    assert_eq!(resolve(&p, 10, 14), Ok(vec![10, 11, 12, 13]));
}

#[test]
fn unique_inside_and_outside_window() {
    let build = |d: u32| {
        PeriodicityBuilder::new(PeriodicityKind::Unique).with_date(d).build().unwrap()
    };
    assert_eq!(resolve(&build(12), 10, 20), Ok(vec![12]));
    assert_eq!(resolve(&build(20), 10, 20), Ok(vec![]));
    assert_eq!(resolve(&build(10), 10, 20), Ok(vec![10]));
    assert_eq!(resolve(&build(9), 10, 20), Ok(vec![]));
}

#[test]
fn custom_dates_sorted_subset_of_unsorted_input() {
    let p = PeriodicityBuilder::new(PeriodicityKind::Custom)
        .with_dates(vec![50, 10, 30, 39])
        .build()
        .unwrap();
    assert_eq!(resolve(&p, 0, 40), Ok(vec![10, 30, 39]));
    assert_eq!(resolve(&p, 11, 30), Ok(vec![]));
}

#[test]
fn every_n_days_congruent_with_anchor() {
    // anchor 10, stride 3: members are the days congruent to 10 modulo 3.
    let p = day_rule(1, DaySetting::EveryNDays(3), 10);
    assert_eq!(resolve(&p, 0, 20), Ok(vec![1, 4, 7, 10, 13, 16, 19]));
    // A window far from the anchor keeps the same phase.
    assert_eq!(resolve(&p, 1000, 1007), Ok(vec![1000, 1003, 1006]));
}

#[test]
fn specific_weekdays() {
    // 2023-02-06 is a Monday; take Monday and Wednesday over two weeks.
    let start = day_number_of(2023, 2, 6);
    let p = day_rule(
        1,
        DaySetting::SpecificDaysWeek(vec![Weekday::Monday, Weekday::Wednesday]),
        0,
    );
    let got = resolve(&p, start, start + 14).unwrap();
    assert_eq!(got, vec![start, start + 2, start + 7, start + 9]);
}

#[test]
fn days_of_month_from_first() {
    // Entry 0 is the 1st, entry 14 the 15th.
    let p = day_rule(1, DaySetting::SpecificDaysMonthFromFirst(vec![0, 14]), 0);
    let from = day_number_of(2023, 3, 1);
    let to = day_number_of(2023, 5, 1);
    let got = resolve(&p, from, to).unwrap();
    assert_eq!(
        got,
        vec![
            day_number_of(2023, 3, 1),
            day_number_of(2023, 3, 15),
            day_number_of(2023, 4, 1),
            day_number_of(2023, 4, 15),
        ]
    );
}

#[test]
fn day_thirty_skipped_in_february() {
    // Entry 29 names the 30th day of a month; February has none, in leap
    // years or not, so the expansion over February is empty — no error.
    let p = day_rule(1, DaySetting::SpecificDaysMonthFromFirst(vec![29]), 0);
    let from = day_number_of(2023, 2, 1);
    let to = day_number_of(2023, 3, 1);
    assert_eq!(resolve(&p, from, to), Ok(vec![]));
    // The same rule fires in March.
    let got = resolve(&p, from, day_number_of(2023, 4, 1)).unwrap();
    assert_eq!(got, vec![day_number_of(2023, 3, 30)]);
}

#[test]
fn days_of_month_from_last() {
    // Entry 0 is the last day of the month.
    let p = day_rule(1, DaySetting::SpecificDaysMonthFromLast(vec![0]), 0);
    let from = day_number_of(2024, 1, 1);
    let to = day_number_of(2024, 4, 1);
    let got = resolve(&p, from, to).unwrap();
    assert_eq!(
        got,
        vec![
            day_number_of(2024, 1, 31),
            day_number_of(2024, 2, 29),
            day_number_of(2024, 3, 31),
        ]
    );
}

#[test]
fn second_tuesday_of_month() {
    let entry = SpecificDayMonth {
        position: SpecificDayMonthSetting::MonthWeekFromFirst(2),
        weekday: Weekday::Tuesday,
    };
    let p = day_rule(1, DaySetting::SpecificNthWeekdaysMonth(vec![entry]), 0);
    let from = day_number_of(2023, 2, 1);
    let to = day_number_of(2023, 4, 1);
    let got = resolve(&p, from, to).unwrap();
    // Second Tuesdays: 2023-02-14 and 2023-03-14.
    assert_eq!(got, vec![day_number_of(2023, 2, 14), day_number_of(2023, 3, 14)]);
}

#[test]
fn fifth_monday_absent_in_four_monday_month() {
    // February 2023 has four Mondays (6, 13, 20, 27): the fifth yields
    // nothing for that month, without error.
    let entry = SpecificDayMonth {
        position: SpecificDayMonthSetting::MonthWeekFromFirst(5),
        weekday: Weekday::Monday,
    };
    let p = day_rule(1, DaySetting::SpecificNthWeekdaysMonth(vec![entry]), 0);
    let from = day_number_of(2023, 2, 1);
    let to = day_number_of(2023, 3, 1);
    assert_eq!(resolve(&p, from, to), Ok(vec![]));
    // January 2023 has five Mondays; the fifth is the 30th.
    let got = resolve(&p, day_number_of(2023, 1, 1), from).unwrap();
    assert_eq!(got, vec![day_number_of(2023, 1, 30)]);
}

#[test]
fn last_monday_of_month() {
    let entry = SpecificDayMonth {
        position: SpecificDayMonthSetting::MonthWeekFromLast(1),
        weekday: Weekday::Monday,
    };
    let p = day_rule(1, DaySetting::SpecificNthWeekdaysMonth(vec![entry]), 0);
    let from = day_number_of(2023, 2, 1);
    let to = day_number_of(2023, 3, 1);
    assert_eq!(resolve(&p, from, to), Ok(vec![day_number_of(2023, 2, 27)]));
}

#[test]
fn days_per_week_first_of_each_block() {
    // Blocks of seven days from the anchor; the first two days of each.
    let anchor = day_number_of(2023, 2, 6);
    let p = day_rule(1, DaySetting::DaysPerWeek(2), anchor);
    let got = resolve(&p, anchor, anchor + 14).unwrap();
    assert_eq!(got, vec![anchor, anchor + 1, anchor + 7, anchor + 8]);
}

#[test]
fn days_per_fortnight_first_of_each_block() {
    let anchor = 100;
    let p = day_rule(1, DaySetting::DaysPerFortnight(1), anchor);
    let got = resolve(&p, 100, 130).unwrap();
    assert_eq!(got, vec![100, 114, 128]);
}

#[test]
fn days_per_month_first_days() {
    let p = day_rule(1, DaySetting::DaysPerMonth(3), 0);
    let from = day_number_of(2023, 2, 26);
    let to = day_number_of(2023, 3, 10);
    let got = resolve(&p, from, to).unwrap();
    assert_eq!(
        got,
        vec![
            day_number_of(2023, 3, 1),
            day_number_of(2023, 3, 2),
            day_number_of(2023, 3, 3),
        ]
    );
}

#[test]
fn days_per_year_first_days() {
    let p = day_rule(1, DaySetting::DaysPerYear(2), 0);
    let from = day_number_of(2022, 12, 1);
    let to = day_number_of(2024, 2, 1);
    let got = resolve(&p, from, to).unwrap();
    assert_eq!(
        got,
        vec![
            day_number_of(2023, 1, 1),
            day_number_of(2023, 1, 2),
            day_number_of(2024, 1, 1),
            day_number_of(2024, 1, 2),
        ]
    );
}

#[test]
fn every_week_fires_on_week_start() {
    let p = week_rule(1, Weekday::Monday, WeekSetting::EveryWeek, 0);
    let from = day_number_of(2023, 2, 1);
    let to = day_number_of(2023, 3, 1);
    let got = resolve(&p, from, to).unwrap();
    assert_eq!(
        got,
        vec![
            day_number_of(2023, 2, 6),
            day_number_of(2023, 2, 13),
            day_number_of(2023, 2, 20),
            day_number_of(2023, 2, 27),
        ]
    );
}

#[test]
fn every_two_weeks_phased_by_anchor() {
    // Anchor inside the week of Monday 2023-02-06 (a Wednesday).
    let anchor = day_number_of(2023, 2, 8);
    let p = week_rule(1, Weekday::Monday, WeekSetting::EveryNWeeks(2), anchor);
    let from = day_number_of(2023, 2, 1);
    let to = day_number_of(2023, 3, 14);
    let got = resolve(&p, from, to).unwrap();
    assert_eq!(
        got,
        vec![
            day_number_of(2023, 2, 6),
            day_number_of(2023, 2, 20),
            day_number_of(2023, 3, 6),
        ]
    );
}

#[test]
fn first_week_of_month() {
    let p = week_rule(
        1,
        Weekday::Monday,
        WeekSetting::SpecificWeeksOfMonthFromFirst(vec![1]),
        0,
    );
    let from = day_number_of(2023, 2, 1);
    let to = day_number_of(2023, 4, 1);
    let got = resolve(&p, from, to).unwrap();
    // First Mondays: 2023-02-06 and 2023-03-06.
    assert_eq!(got, vec![day_number_of(2023, 2, 6), day_number_of(2023, 3, 6)]);
}

#[test]
fn last_week_of_month() {
    let p = week_rule(
        1,
        Weekday::Monday,
        WeekSetting::SpecificWeeksOfMonthFromLast(vec![1]),
        0,
    );
    let from = day_number_of(2023, 2, 1);
    let to = day_number_of(2023, 3, 1);
    assert_eq!(resolve(&p, from, to), Ok(vec![day_number_of(2023, 2, 27)]));
}

#[test]
fn weeks_per_month_takes_first_weeks() {
    let p = week_rule(1, Weekday::Monday, WeekSetting::WeeksPerMonth(2), 0);
    let from = day_number_of(2023, 2, 1);
    let to = day_number_of(2023, 3, 1);
    let got = resolve(&p, from, to).unwrap();
    assert_eq!(got, vec![day_number_of(2023, 2, 6), day_number_of(2023, 2, 13)]);
}

#[test]
fn every_month_first_days() {
    let p = month_rule(1, MonthSetting::EveryMonth, 0);
    let from = day_number_of(2023, 1, 15);
    let to = day_number_of(2023, 4, 15);
    let got = resolve(&p, from, to).unwrap();
    assert_eq!(
        got,
        vec![
            day_number_of(2023, 2, 1),
            day_number_of(2023, 3, 1),
            day_number_of(2023, 4, 1),
        ]
    );
}

#[test]
fn every_two_months_phased_by_anchor() {
    let anchor = day_number_of(2023, 1, 20);
    let p = month_rule(1, MonthSetting::EveryNMonths(2), anchor);
    let from = day_number_of(2023, 1, 1);
    let to = day_number_of(2023, 7, 1);
    let got = resolve(&p, from, to).unwrap();
    assert_eq!(
        got,
        vec![
            day_number_of(2023, 1, 1),
            day_number_of(2023, 3, 1),
            day_number_of(2023, 5, 1),
        ]
    );
}

#[test]
fn specific_months() {
    let p = month_rule(
        1,
        MonthSetting::SpecificMonths(vec![MonthOfYear::March, MonthOfYear::July]),
        0,
    );
    let from = day_number_of(2023, 1, 1);
    let to = day_number_of(2024, 1, 1);
    let got = resolve(&p, from, to).unwrap();
    assert_eq!(got, vec![day_number_of(2023, 3, 1), day_number_of(2023, 7, 1)]);
}

#[test]
fn yearly_from_start_month() {
    let p = PeriodicityBuilder::new(PeriodicityKind::Year)
        .with_repetitions(1)
        .with_year_start(MonthOfYear::April)
        .build()
        .unwrap();
    let from = day_number_of(2022, 1, 1);
    let to = day_number_of(2024, 1, 1);
    let got = resolve(&p, from, to).unwrap();
    assert_eq!(got, vec![day_number_of(2022, 4, 1), day_number_of(2023, 4, 1)]);
}

#[test]
fn output_is_strictly_ascending_and_in_window() {
    let p = day_rule(1, DaySetting::EveryNDays(2), 1);
    let from = 40;
    let to = 60;
    let got = resolve(&p, from, to).unwrap();
    for w in got.windows(2) {
        assert!(w[0] < w[1]);
    }
    for &d in &got {
        assert!(from <= d && d < to);
    }
}
