use chrono::{Datelike, NaiveDate};
use rat_widget::calendar::calendar::CalendarState;
use rat_widget::calendar::date::{Date, EPOCH_DAYS};
use rat_widget::calendar::event::CalOutcome;
use rat_widget::calendar::month::{DayMark, MonthState};
use rat_widget::calendar::selection::no_selection::NoSelection;
use rat_widget::calendar::selection::range_selection::RangeSelection;
use rat_widget::calendar::selection::single_selection::SingleSelection;
use rat_widget::calendar::{CalendarSelection, TodayPolicy};

fn date(y: i32, m: u32, d: u32) -> Date {
    let nd = NaiveDate::from_ymd_opt(y, m, d).unwrap();
    Date::from_num_days(nd.num_days_from_ce()).unwrap()
}

fn starts<const N: usize, S>(c: &CalendarState<N, S>) -> Vec<Date> {
    c.months.iter().map(|m| m.start_date()).collect()
}

#[test]
fn month_default_start_is_epoch() {
    let m = MonthState::<SingleSelection>::new();
    assert_eq!(m.start_date().num_days(), EPOCH_DAYS);
    assert_eq!(m.start_date(), date(1970, 1, 1));
}

#[test]
fn month_set_start_date_goes_to_first() {
    let mut m = MonthState::<SingleSelection>::new();
    assert!(m.set_start_date(date(2024, 3, 15)));
    assert_eq!(m.start_date(), date(2024, 3, 1));
    assert_eq!(m.end_date(), date(2024, 3, 31));
    // another day of the same month changes nothing
    assert!(!m.set_start_date(date(2024, 3, 31)));
    m.set_start_date(date(2024, 2, 10));
    assert_eq!(m.end_date(), date(2024, 2, 29));
}

#[test]
fn month_count_weeks() {
    // Friday the first, 31 days
    assert_eq!(MonthState::<NoSelection>::count_weeks(date(2024, 3, 1)), 5);
    // Monday the first, 28 days
    assert_eq!(MonthState::<NoSelection>::count_weeks(date(2021, 2, 1)), 4);
    // Sunday the first, 28 days
    assert_eq!(MonthState::<NoSelection>::count_weeks(date(2015, 2, 20)), 5);
    // Sunday the first, 30 days
    assert_eq!(MonthState::<NoSelection>::count_weeks(date(2024, 9, 1)), 6);
    let mut m = MonthState::<NoSelection>::new();
    m.set_start_date(date(2024, 9, 3));
    assert_eq!(m.week_len(), 6);
}

#[test]
fn month_single_navigation() {
    let mut m = MonthState::<SingleSelection>::new();
    m.set_start_date(date(2024, 3, 1));
    assert_eq!(m.select_day(0), CalOutcome::Selected);
    assert_eq!(m.selected_date(), Some(date(2024, 3, 1)));
    assert_eq!(m.select_day(0), CalOutcome::Continue);
    // March has no 32nd day
    assert_eq!(m.select_day(31), CalOutcome::Continue);
    assert_eq!(m.selected_date(), Some(date(2024, 3, 1)));
    assert_eq!(m.next_day(1), CalOutcome::Selected);
    assert_eq!(m.selected_date(), Some(date(2024, 3, 2)));
    // leaving the month does nothing
    assert_eq!(m.prev_day(5), CalOutcome::Continue);
    assert_eq!(m.selected_date(), Some(date(2024, 3, 2)));
    assert_eq!(m.select_last(), CalOutcome::Selected);
    assert_eq!(m.selected_date(), Some(date(2024, 3, 31)));
    assert_eq!(m.next_day(1), CalOutcome::Continue);
    assert!(!m.select_date(date(2024, 4, 1)));
    assert!(m.select_date(date(2024, 3, 7)));
    // a date of the month is valid, though it is selected already
    assert!(m.select_date(date(2024, 3, 7)));
    assert_eq!(m.selected_date(), Some(date(2024, 3, 7)));
    m.clear_selection();
    assert_eq!(m.selected_date(), None);
    // without a selection going back starts at the end
    assert_eq!(m.prev_day(1), CalOutcome::Selected);
    assert_eq!(m.selected_date(), Some(date(2024, 3, 31)));
}

#[test]
fn month_single_from_outside_goes_to_nearer_end() {
    let mut m = MonthState::<SingleSelection>::new();
    m.set_start_date(date(2024, 3, 1));
    m.selection.select(date(2024, 5, 20));
    assert_eq!(m.next_day(1), CalOutcome::Selected);
    assert_eq!(m.selected_date(), Some(date(2024, 3, 31)));
    m.selection.select(date(2023, 5, 20));
    assert_eq!(m.prev_day(1), CalOutcome::Selected);
    assert_eq!(m.selected_date(), Some(date(2024, 3, 1)));
}

#[test]
fn month_range_select_week() {
    let mut m = MonthState::<RangeSelection>::new();
    m.set_start_date(date(2024, 3, 1));
    assert_eq!(m.select_week(0, false), CalOutcome::Selected);
    // the week of Friday 2024-03-01 runs from Monday 02-26 to Sunday 03-03
    assert_eq!(m.selection.selected(), Some((date(2024, 3, 3), date(2024, 2, 26))));
    assert_eq!(m.selected_date(), Some(date(2024, 2, 26)));
    assert_eq!(m.selection.count(), 7);
    // March 2024 has 5 weeks
    assert_eq!(m.select_week(5, false), CalOutcome::Continue);
    assert_eq!(m.select_week(4, false), CalOutcome::Selected);
    assert_eq!(m.selection.selected(), Some((date(2024, 3, 31), date(2024, 3, 25))));
}

#[test]
fn month_range_select_day_extend() {
    let mut m = MonthState::<RangeSelection>::new();
    m.set_start_date(date(2024, 3, 1));
    assert_eq!(m.select_day(2, false), CalOutcome::Selected);
    assert_eq!(m.select_day(9, true), CalOutcome::Selected);
    assert_eq!(m.selection.selected(), Some((date(2024, 3, 3), date(2024, 3, 10))));
    assert_eq!(m.selection.count(), 8);
    assert_eq!(m.select_last(true), CalOutcome::Selected);
    assert_eq!(m.selection.selected(), Some((date(2024, 3, 3), date(2024, 3, 31))));
    assert!(m.select_date(date(2024, 3, 5), false));
    assert!(!m.select_date(date(2024, 4, 5), false));
    assert_eq!(m.selection.selected(), Some((date(2024, 3, 5), date(2024, 3, 5))));
}

#[test]
fn month_range_navigation() {
    let mut m = MonthState::<RangeSelection>::new();
    m.set_start_date(date(2024, 3, 1));
    // no lead: next day selects the first
    assert_eq!(m.next_day(1, false), CalOutcome::Selected);
    assert_eq!(m.selected_date(), Some(date(2024, 3, 1)));
    assert_eq!(m.next_day(7, true), CalOutcome::Selected);
    assert_eq!(m.selection.selected(), Some((date(2024, 3, 1), date(2024, 3, 8))));
    assert_eq!(m.prev_day(8, false), CalOutcome::Continue);
    assert_eq!(m.prev_day(7, false), CalOutcome::Selected);
    assert_eq!(m.selection.selected(), Some((date(2024, 3, 1), date(2024, 3, 1))));
    // the week after the one of 03-01
    assert_eq!(m.next_week(1, false), CalOutcome::Selected);
    assert_eq!(m.selection.selected(), Some((date(2024, 3, 10), date(2024, 3, 4))));
    assert_eq!(m.prev_week(1, false), CalOutcome::Selected);
    assert_eq!(m.selection.selected(), Some((date(2024, 3, 3), date(2024, 2, 26))));
    m.clear_selection();
    assert_eq!(m.prev_week(1, false), CalOutcome::Selected);
    assert_eq!(m.selection.selected(), Some((date(2024, 3, 31), date(2024, 3, 25))));
    // the week of 02-27 ends in March
    assert!(m.select_week_by_date(date(2024, 2, 27), false));
    assert_eq!(m.selection.selected(), Some((date(2024, 3, 3), date(2024, 2, 26))));
    // the week 04-01..04-07 doesn't touch March
    assert!(!m.select_week_by_date(date(2024, 4, 2), false));
    assert_eq!(m.selection.selected(), Some((date(2024, 3, 3), date(2024, 2, 26))));
}

#[test]
fn calendar_set_start_date_consecutive() {
    let mut c = CalendarState::<3, SingleSelection>::new();
    assert_eq!(c.step(), 1);
    assert_eq!(c.primary_idx(), 0);
    c.set_start_date(date(2024, 1, 31));
    assert_eq!(starts(&c), vec![date(2024, 1, 1), date(2024, 2, 1), date(2024, 3, 1)]);
    assert_eq!(c.start_date(), date(2024, 1, 1));
    assert_eq!(c.end_date(), date(2024, 3, 31));
    c.set_start_date(date(2024, 11, 30));
    assert_eq!(starts(&c), vec![date(2024, 11, 1), date(2024, 12, 1), date(2025, 1, 1)]);
}

#[test]
fn calendar_scroll_back_undoes_forward() {
    let mut c = CalendarState::<3, NoSelection>::new();
    c.set_start_date(date(2024, 5, 1));
    assert_eq!(c.scroll_forward(0), CalOutcome::Continue);
    assert_eq!(c.scroll_forward(13), CalOutcome::Changed);
    assert_eq!(starts(&c), vec![date(2025, 6, 1), date(2025, 7, 1), date(2025, 8, 1)]);
    assert_eq!(c.scroll_back(13), CalOutcome::Changed);
    assert_eq!(starts(&c), vec![date(2024, 5, 1), date(2024, 6, 1), date(2024, 7, 1)]);
    c.set_primary_idx(1);
    assert_eq!(c.scroll_to(date(2024, 1, 20)), CalOutcome::Changed);
    assert_eq!(starts(&c), vec![date(2023, 12, 1), date(2024, 1, 1), date(2024, 2, 1)]);
}

#[test]
fn calendar_single_navigation_scrolls() {
    let mut c = CalendarState::<3, SingleSelection>::new();
    c.focused = true;
    c.set_start_date(date(2024, 1, 1));
    // without a selection next day selects the start
    assert_eq!(c.next_day(1), CalOutcome::Selected);
    assert_eq!(c.selected(), Some(date(2024, 1, 1)));
    assert!(c.months[0].focused);
    assert!(c.select(date(2024, 3, 31)));
    assert_eq!(c.next_day(1), CalOutcome::Selected);
    assert_eq!(c.selected(), Some(date(2024, 4, 1)));
    assert_eq!(starts(&c), vec![date(2024, 2, 1), date(2024, 3, 1), date(2024, 4, 1)]);
    assert_eq!(c.primary_idx(), 2);
    assert!(c.months[2].focused && !c.months[0].focused && !c.months[1].focused);
    assert_eq!(c.prev_month(1), CalOutcome::Selected);
    assert_eq!(c.selected(), Some(date(2024, 3, 1)));
    assert_eq!(c.primary_idx(), 1);
    // step 0 doesn't scroll
    c.set_step(0);
    c.select(date(2024, 2, 1));
    assert_eq!(c.prev_day(1), CalOutcome::Continue);
    assert_eq!(c.selected(), Some(date(2024, 2, 1)));
}

#[test]
fn calendar_single_move_to() {
    let mut c = CalendarState::<3, SingleSelection>::new();
    c.focused = true;
    c.set_today_policy(TodayPolicy::Index(1));
    assert_eq!(c.move_to(date(2024, 7, 4)), CalOutcome::Selected);
    assert_eq!(starts(&c), vec![date(2024, 6, 1), date(2024, 7, 1), date(2024, 8, 1)]);
    assert_eq!(c.primary_idx(), 1);
    assert!(c.months[1].focused);
    assert_eq!(c.move_to(date(2024, 7, 4)), CalOutcome::Changed);
    assert!(c.is_selected(date(2024, 7, 4)));
    assert_eq!(c.lead_selection(), Some(date(2024, 7, 4)));
}

#[test]
fn calendar_year_policy() {
    let mut c = CalendarState::<12, NoSelection>::new();
    c.focused = true;
    c.set_today_policy(TodayPolicy::Year);
    assert_eq!(c.move_to(date(2024, 7, 4)), CalOutcome::Changed);
    assert_eq!(c.start_date(), date(2024, 1, 1));
    assert_eq!(c.end_date(), date(2024, 12, 31));
    assert_eq!(c.primary_idx(), 6);
    assert!(c.months[6].focused);
    assert_eq!(c.next_month(1), CalOutcome::Changed);
    assert_eq!(c.primary_idx(), 7);
    assert_eq!(c.prev_month(1), CalOutcome::Changed);
    assert_eq!(c.primary_idx(), 6);
    c.set_step(12);
    c.set_primary_idx(11);
    assert_eq!(c.next_month(1), CalOutcome::Changed);
    assert_eq!(c.start_date(), date(2025, 1, 1));
}

#[test]
fn calendar_range_navigation() {
    let mut c = CalendarState::<2, RangeSelection>::new();
    c.set_start_date(date(2024, 3, 1));
    assert_eq!(c.next_week(1, false), CalOutcome::Selected);
    // the week of 03-01
    assert_eq!(c.selected(), Some((date(2024, 3, 3), date(2024, 2, 26))));
    assert_eq!(c.next_day(1, true), CalOutcome::Selected);
    assert_eq!(c.selected(), Some((date(2024, 3, 3), date(2024, 2, 27))));
    assert_eq!(c.selected_range(), Some((date(2024, 2, 27), date(2024, 3, 3))));
    assert!(c.select_month(date(2024, 4, 10), false));
    assert_eq!(c.selected(), Some((date(2024, 4, 30), date(2024, 4, 1))));
    assert_eq!(c.next_month(1, false), CalOutcome::Selected);
    assert_eq!(c.selected(), Some((date(2024, 5, 31), date(2024, 5, 1))));
    assert_eq!(starts(&c), vec![date(2024, 4, 1), date(2024, 5, 1)]);
    assert_eq!(c.move_to_prev(0, 1), CalOutcome::Selected);
    assert_eq!(c.selected(), Some((date(2024, 4, 30), date(2024, 4, 30))));
    c.clear_selection();
    assert_eq!(c.selected(), None);
    assert_eq!(c.prev_month(1, false), CalOutcome::Selected);
    assert_eq!(c.selected(), Some((date(2024, 5, 31), date(2024, 5, 1))));
    assert_eq!(c.move_to(date(2024, 8, 8)), CalOutcome::Selected);
    assert_eq!(starts(&c), vec![date(2024, 8, 1), date(2024, 9, 1)]);
    assert_eq!(c.selected(), Some((date(2024, 8, 8), date(2024, 8, 8))));
}

#[test]
fn calendar_range_prev_week_scrolls() {
    let mut c = CalendarState::<2, RangeSelection>::new();
    c.set_start_date(date(2024, 3, 1));
    c.select_day(date(2024, 3, 5), false);
    assert_eq!(c.prev_week(1, false), CalOutcome::Selected);
    // the week of 02-27 ends on 03-03, inside the calendar
    assert_eq!(c.selected(), Some((date(2024, 3, 3), date(2024, 2, 26))));
    assert_eq!(starts(&c), vec![date(2024, 3, 1), date(2024, 4, 1)]);
    assert_eq!(c.prev_week(1, false), CalOutcome::Selected);
    assert_eq!(starts(&c), vec![date(2024, 2, 1), date(2024, 3, 1)]);
    assert_eq!(c.selected(), Some((date(2024, 2, 25), date(2024, 2, 19))));
}

use rat_widget::calendar::date::{MAX_DAYS, MIN_DAYS};
use rat_widget::geometry::Rect;

#[test]
fn date_range_is_chronos_range() {
    assert_eq!(NaiveDate::MIN.num_days_from_ce(), MIN_DAYS);
    assert_eq!(NaiveDate::MAX.num_days_from_ce(), MAX_DAYS);
    assert!(Date::from_num_days(MIN_DAYS).is_some());
    assert!(Date::from_num_days(MIN_DAYS - 1).is_none());
    assert!(Date::from_num_days(MAX_DAYS).is_some());
}

#[test]
fn month_weeks_and_end() {
    // February 2021 starts on a Monday and has 28 days: 4 weeks
    assert_eq!(MonthState::<NoSelection>::count_weeks(date(2021, 2, 14)), 4);
    // March 2024 starts on a Friday: 5 weeks
    assert_eq!(MonthState::<NoSelection>::count_weeks(date(2024, 3, 31)), 5);
    let mut m = MonthState::<NoSelection>::new();
    m.set_start_date(date(2024, 2, 20));
    assert_eq!(m.start_date(), date(2024, 2, 1));
    assert_eq!(m.end_date(), date(2024, 2, 29));
}

#[test]
fn month_layout_places_days_and_weeks() {
    let mut m = MonthState::<SingleSelection>::new();
    m.set_start_date(date(2024, 3, 1));
    m.layout(Rect::new(0, 0, 32, 12), Rect::new(1, 1, 30, 10), true);
    assert_eq!(m.area, Rect::new(0, 0, 32, 12));
    assert_eq!(m.inner, Rect::new(1, 1, 30, 10));
    assert_eq!(m.area_cal, Rect::new(4, 2, 21, 5));
    assert_eq!(m.area_weeknum, Rect::new(1, 2, 3, 5));
    // 03-01 is a Friday, 03-04 a Monday, 03-31 a Sunday
    assert_eq!(m.area_days[0], Rect::new(16, 2, 2, 1));
    assert_eq!(m.area_days[3], Rect::new(4, 3, 2, 1));
    assert_eq!(m.area_days[30], Rect::new(22, 6, 2, 1));
    assert_eq!(m.area_weeks[0], Rect::new(1, 2, 2, 1));
    assert_eq!(m.area_weeks[4], Rect::new(1, 6, 2, 1));
    assert_eq!(m.area_weeks[5], Rect::new(0, 0, 0, 0));
    m.set_start_date(date(2024, 2, 1));
    m.layout(Rect::new(0, 0, 32, 12), Rect::new(1, 1, 30, 10), false);
    // February 2024 has 29 days and starts on a Thursday
    assert_eq!(m.area_days[0], Rect::new(13, 1, 2, 1));
    assert_eq!(m.area_days[28], Rect::new(13, 5, 2, 1));
    assert_eq!(m.area_days[29], Rect::new(0, 0, 0, 0));
    assert_eq!(m.area_days[30], Rect::new(0, 0, 0, 0));
    // a narrow inner area cuts the days
    m.layout(Rect::new(0, 0, 12, 12), Rect::new(1, 1, 10, 10), false);
    assert_eq!(m.area_days[0], Rect::new(13, 1, 0, 1));
}

#[test]
fn day_marks_and_joins() {
    let mut m = MonthState::<RangeSelection>::new();
    m.set_start_date(date(2024, 7, 1));
    // 2024-07-03 (Wednesday) to 2024-07-07 (Sunday), lead on the 7th
    m.selection.select((date(2024, 7, 3), date(2024, 7, 7)));
    assert_eq!(m.day_mark(date(2024, 7, 2)), DayMark::Plain);
    assert_eq!(m.day_mark(date(2024, 7, 4)), DayMark::Selected);
    // without the focus the lead is drawn as selected
    assert_eq!(m.day_mark(date(2024, 7, 7)), DayMark::Selected);
    m.focused = true;
    assert_eq!(m.day_mark(date(2024, 7, 7)), DayMark::Lead);
    // a lone day is no lead
    m.selection.select((date(2024, 7, 9), date(2024, 7, 9)));
    assert_eq!(m.day_mark(date(2024, 7, 9)), DayMark::Selected);
    m.selection.select((date(2024, 7, 3), date(2024, 7, 8)));
    assert!(m.joins_next(date(2024, 7, 2)));
    assert!(m.joins_next(date(2024, 7, 6)));
    // Sunday the 7th ends its row
    assert!(!m.joins_next(date(2024, 7, 7)));
    assert!(!m.joins_next(date(2024, 7, 8)));
}
