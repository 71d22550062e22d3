use chrono::{Datelike, NaiveDate};
use rat_widget::calendar::date::{Date, MAX_DAYS, MIN_DAYS};
use rat_widget::calendar::event::CalOutcome;
use rat_widget::calendar::selection::no_selection::NoSelection;
use rat_widget::calendar::selection::range_selection::RangeSelection;
use rat_widget::calendar::selection::single_selection::SingleSelection;
use rat_widget::calendar::{CalendarSelection, TodayPolicy};
use rat_widget::event::Outcome;

fn date(y: i32, m: u32, d: u32) -> Date {
    let nd = NaiveDate::from_ymd_opt(y, m, d).unwrap();
    Date::from_num_days(nd.num_days_from_ce()).unwrap()
}

fn naive(d: Date) -> NaiveDate {
    NaiveDate::from_num_days_from_ce_opt(d.num_days()).unwrap()
}

#[test]
fn date_range_matches_chrono() {
    assert_eq!(NaiveDate::MIN.num_days_from_ce(), MIN_DAYS);
    assert_eq!(NaiveDate::MAX.num_days_from_ce(), MAX_DAYS);
    assert!(Date::from_num_days(MIN_DAYS - 1).is_none());
    assert!(Date::from_num_days(MAX_DAYS + 1).is_none());
    assert!(Date::from_num_days(1).is_some());
}

#[test]
fn date_day_arithmetic() {
    let d = date(2024, 2, 28);
    assert_eq!(naive(d.checked_add_days(1).unwrap()), NaiveDate::from_ymd_opt(2024, 2, 29).unwrap());
    assert_eq!(naive(d.checked_add_days(2).unwrap()), NaiveDate::from_ymd_opt(2024, 3, 1).unwrap());
    assert_eq!(naive(d.checked_sub_days(28).unwrap()), NaiveDate::from_ymd_opt(2024, 1, 31).unwrap());
    let max = Date::from_num_days(MAX_DAYS).unwrap();
    assert!(max.checked_add_days(1).is_none());
    let min = Date::from_num_days(MIN_DAYS).unwrap();
    assert!(min.checked_sub_days(1).is_none());
    assert_eq!(date(1, 1, 1).num_days(), 1);
}

#[test]
fn range_select_day() {
    let mut s = RangeSelection::new();
    assert_eq!(s.count(), 0);
    assert_eq!(s.lead_selection(), None);
    let d = date(2024, 3, 15);
    assert!(s.select_day(d, false));
    assert_eq!(s.count(), 1);
    assert!(s.is_selected(d));
    assert!(!s.is_selected(date(2024, 3, 16)));
    assert_eq!(s.selected(), Some((d, d)));
    // same again changes nothing
    assert!(!s.select_day(d, false));
}

#[test]
fn range_select_day_extend_keeps_anchor() {
    let mut s = RangeSelection::new();
    let a = date(2024, 3, 15);
    s.select_day(a, false);
    let l = date(2024, 3, 10);
    assert!(s.select_day(l, true));
    assert_eq!(s.selected(), Some((a, l)));
    assert_eq!(s.len(), 6);
    assert_eq!(s.selected_range(), Some((l, a)));
    assert!(s.is_selected(date(2024, 3, 12)));
    assert!(!s.is_selected(date(2024, 3, 16)));
    assert_eq!(s.lead_selection(), Some(l));
}

#[test]
fn range_select_month() {
    let mut s = RangeSelection::new();
    assert!(s.select_month(date(2024, 3, 15), false));
    assert_eq!(s.selected(), Some((date(2024, 3, 31), date(2024, 3, 1))));
    assert_eq!(s.count(), 31);
    assert!(!s.select_month(date(2024, 3, 2), false));
    // february of a leap year
    s.select_month(date(2024, 2, 10), false);
    assert_eq!(s.count(), 29);
}

#[test]
fn range_select_month_extend() {
    let mut s = RangeSelection::new();
    s.select_month(date(2024, 3, 15), false);
    // a single month turns around its lead
    assert!(s.select_month(date(2024, 5, 10), true));
    assert_eq!(s.selected(), Some((date(2024, 3, 1), date(2024, 5, 31))));
    assert_eq!(s.count(), 92);
    // a month inside the range: the lead comes back to it
    assert!(s.select_month(date(2024, 4, 5), true));
    assert_eq!(s.selected(), Some((date(2024, 3, 1), date(2024, 4, 30))));
    assert_eq!(s.count(), 61);
    // a month before the anchor: the lead goes to its start
    assert!(s.select_month(date(2024, 1, 10), true));
    assert_eq!(s.selected(), Some((date(2024, 3, 1), date(2024, 1, 1))));
    assert_eq!(s.selected_range(), Some((date(2024, 1, 1), date(2024, 3, 1))));
    assert!(s.is_selected(date(2024, 1, 1)) && s.is_selected(date(2024, 1, 31)));
}

#[test]
fn range_select_week_extend_takes_in_whole_weeks() {
    let mut s = RangeSelection::new();
    // 2024-03-13 is a wednesday: its week is 03-11..03-17
    s.select_week(date(2024, 3, 13), false);
    assert!(s.select_week(date(2024, 3, 1), true));
    assert_eq!(s.selected_range(), Some((date(2024, 2, 26), date(2024, 3, 17))));
    // a week inside the range: the lead comes back to its start
    assert!(s.select_week(date(2024, 3, 6), true));
    assert_eq!(s.selected(), Some((date(2024, 3, 17), date(2024, 3, 4))));
    // a week after the anchor: the lead goes to its end
    assert!(s.select_week(date(2024, 3, 27), true));
    assert_eq!(s.selected(), Some((date(2024, 3, 17), date(2024, 3, 31))));
}

#[test]
fn range_select_month_extend_fills_partial_selection() {
    let mut s = RangeSelection::new();
    // a partial range is buffed up to whole months first
    s.select((date(2024, 3, 20), date(2024, 4, 10)));
    assert!(s.select_month(date(2024, 6, 1), true));
    assert_eq!(s.selected(), Some((date(2024, 3, 1), date(2024, 6, 30))));
}

#[test]
fn range_select_week() {
    let mut s = RangeSelection::new();
    // 2024-03-13 is a wednesday
    assert!(s.select_week(date(2024, 3, 13), false));
    assert_eq!(s.selected(), Some((date(2024, 3, 17), date(2024, 3, 11))));
    assert_eq!(s.count(), 7);
    // extend to the next week: single week turns around
    assert!(s.select_week(date(2024, 3, 20), true));
    assert_eq!(s.selected(), Some((date(2024, 3, 11), date(2024, 3, 24))));
    assert_eq!(s.count(), 14);
}

#[test]
fn range_select_and_clear() {
    let mut s = RangeSelection::new();
    let a = date(2023, 12, 30);
    let l = date(2024, 1, 2);
    assert!(s.select((a, l)));
    assert!(!s.select((a, l)));
    assert_eq!(s.count(), 4);
    assert_eq!(s.selected_range(), Some((a, l)));
    s.clear();
    assert_eq!(s.selected(), None);
    assert_eq!(s.count(), 0);
    assert!(!s.is_selected(a));
}

#[test]
fn single_selection() {
    let mut s = SingleSelection::new();
    assert_eq!(s.len(), 0);
    let d = date(2020, 2, 29);
    assert!(s.select(d));
    assert!(!s.select(d));
    assert_eq!(s.count(), 1);
    assert!(s.is_selected(d));
    assert!(!s.is_selected(date(2020, 3, 1)));
    assert_eq!(s.selected(), Some(d));
    assert_eq!(s.lead_selection(), Some(d));
    s.clear();
    assert_eq!(s.selected(), None);
}

#[test]
fn no_selection() {
    let s = NoSelection;
    assert_eq!(s.count(), 0);
    assert!(!s.is_selected(date(2020, 1, 1)));
    assert_eq!(s.lead_selection(), None);
}

#[test]
fn cal_outcome_conversions() {
    assert!(!CalOutcome::Continue.is_consumed());
    assert!(CalOutcome::Selected.is_consumed());
    assert_eq!(Outcome::from(CalOutcome::Selected), Outcome::Changed);
    assert_eq!(CalOutcome::from(Outcome::Unchanged), CalOutcome::Unchanged);
    assert_eq!(TodayPolicy::default(), TodayPolicy::Index(0));
}
