use chrono::{Datelike, NaiveDate};
use rat_widget::calendar::date::Date;
use rat_widget::calendar::event::CalOutcome;
use rat_widget::calendar::month::MonthState;
use rat_widget::calendar::month_event::{range_key_step_of, single_key_step_of, MonthStep};
use rat_widget::calendar::selection::range_selection::RangeSelection;
use rat_widget::calendar::selection::single_selection::SingleSelection;
use rat_widget::event::{KeyCode, KeyPress, MouseInput, MouseKind};
use rat_widget::geometry::Rect;

fn date(y: i32, m: u32, d: u32) -> Date {
    let nd = NaiveDate::from_ymd_opt(y, m, d).unwrap();
    Date::from_num_days(nd.num_days_from_ce()).unwrap()
}

fn key(code: KeyCode, shift: bool, control: bool, alt: bool) -> KeyPress {
    KeyPress { code, shift, control, alt }
}

fn mouse(kind: MouseKind, column: u16, row: u16, control: bool) -> MouseInput {
    MouseInput { kind, column, row, shift: false, control, alt: false }
}

/// Lays out March 2024: day `i` at column `3 + 3 * (i % 7)`, row
/// `5 + i / 7`; week `w` at column 0, row `5 + w`.
fn layout<S>(m: &mut MonthState<S>) {
    m.area_cal = Rect::new(3, 5, 21, 6);
    m.area_weeknum = Rect::new(0, 5, 2, 6);
    for i in 0..31u16 {
        m.area_days[i as usize] = Rect::new(3 + 3 * (i % 7), 5 + i / 7, 2, 1);
    }
    for w in 0..6u16 {
        m.area_weeks[w as usize] = Rect::new(0, 5 + w, 2, 1);
    }
}

#[test]
fn key_steps() {
    assert_eq!(single_key_step_of(key(KeyCode::Up, false, false, false)), Some(MonthStep::PrevDay(7)));
    assert_eq!(single_key_step_of(key(KeyCode::Right, false, false, false)), Some(MonthStep::NextDay(1)));
    assert_eq!(single_key_step_of(key(KeyCode::Right, true, false, false)), None);
    assert_eq!(single_key_step_of(key(KeyCode::Home, false, false, false)), None);
    assert_eq!(range_key_step_of(key(KeyCode::Home, false, false, false)), Some((MonthStep::Day(0), false)));
    assert_eq!(range_key_step_of(key(KeyCode::End, true, false, false)), Some((MonthStep::LastDay, true)));
    assert_eq!(range_key_step_of(key(KeyCode::Up, true, false, true)), Some((MonthStep::PrevWeek(1), true)));
    assert_eq!(range_key_step_of(key(KeyCode::Down, false, false, true)), Some((MonthStep::NextWeek(1), false)));
    assert_eq!(range_key_step_of(key(KeyCode::Left, false, false, true)), None);
    assert_eq!(range_key_step_of(key(KeyCode::Up, false, true, false)), None);
}

#[test]
fn single_month_keys() {
    let mut m = MonthState::<SingleSelection>::new();
    m.set_start_date(date(2024, 3, 1));
    assert_eq!(m.handle_key(key(KeyCode::Right, false, false, false)), CalOutcome::Continue);
    assert_eq!(m.selection.selected(), None);
    m.focused = true;
    assert_eq!(m.handle_key(key(KeyCode::Right, false, false, false)), CalOutcome::Selected);
    assert_eq!(m.selection.selected(), Some(date(2024, 3, 1)));
    assert_eq!(m.handle_key(key(KeyCode::Right, false, false, false)), CalOutcome::Selected);
    assert_eq!(m.selection.selected(), Some(date(2024, 3, 2)));
    assert_eq!(m.handle_key(key(KeyCode::Up, false, false, false)), CalOutcome::Continue);
    assert_eq!(m.handle_key(key(KeyCode::Down, false, false, false)), CalOutcome::Selected);
    assert_eq!(m.selection.selected(), Some(date(2024, 3, 9)));
    assert_eq!(m.handle_key(key(KeyCode::Home, false, false, false)), CalOutcome::Continue);
    assert_eq!(m.selection.selected(), Some(date(2024, 3, 9)));
}

#[test]
fn single_month_mouse() {
    let mut m = MonthState::<SingleSelection>::new();
    m.set_start_date(date(2024, 3, 1));
    layout(&mut m);
    // day 10 lies at column 12, row 6
    assert_eq!(m.handle_mouse(mouse(MouseKind::LeftDown, 12, 6, false)), CalOutcome::Selected);
    assert_eq!(m.selection.selected(), Some(date(2024, 3, 11)));
    assert_eq!(m.handle_mouse(mouse(MouseKind::LeftDown, 12, 6, false)), CalOutcome::Continue);
    assert_eq!(m.handle_mouse(mouse(MouseKind::LeftDown, 3, 5, true)), CalOutcome::Continue);
    assert_eq!(m.handle_mouse(mouse(MouseKind::LeftDrag, 3, 5, false)), CalOutcome::Selected);
    assert_eq!(m.selection.selected(), Some(date(2024, 3, 1)));
    assert_eq!(m.handle_mouse(mouse(MouseKind::LeftDown, 30, 30, false)), CalOutcome::Continue);
    assert_eq!(m.handle_mouse(mouse(MouseKind::ScrollUp, 12, 6, false)), CalOutcome::Continue);
    assert_eq!(m.selection.selected(), Some(date(2024, 3, 1)));
}

#[test]
fn range_month_keys() {
    let mut m = MonthState::<RangeSelection>::new();
    m.set_start_date(date(2024, 3, 1));
    m.focused = true;
    assert_eq!(m.handle_key(key(KeyCode::Home, false, false, false)), CalOutcome::Selected);
    assert_eq!(m.selection.selected(), Some((date(2024, 3, 1), date(2024, 3, 1))));
    assert_eq!(m.handle_key(key(KeyCode::End, true, false, false)), CalOutcome::Selected);
    assert_eq!(m.selection.selected(), Some((date(2024, 3, 1), date(2024, 3, 31))));
    // the week after the one of 03-31 lies in April
    assert_eq!(m.handle_key(key(KeyCode::Down, false, false, true)), CalOutcome::Continue);
    assert_eq!(m.handle_key(key(KeyCode::Up, false, false, true)), CalOutcome::Selected);
    assert_eq!(m.selection.selected(), Some((date(2024, 3, 24), date(2024, 3, 18))));
    assert_eq!(m.handle_key(key(KeyCode::Left, true, false, false)), CalOutcome::Selected);
    assert_eq!(m.selection.selected(), Some((date(2024, 3, 24), date(2024, 3, 17))));
    assert_eq!(m.handle_key(key(KeyCode::Left, false, true, false)), CalOutcome::Continue);
    m.focused = false;
    assert_eq!(m.handle_key(key(KeyCode::Home, false, false, false)), CalOutcome::Continue);
    assert_eq!(m.selection.selected(), Some((date(2024, 3, 24), date(2024, 3, 17))));
}

#[test]
fn range_month_mouse() {
    let mut m = MonthState::<RangeSelection>::new();
    m.set_start_date(date(2024, 3, 1));
    layout(&mut m);
    // a click on week 1 selects 03-04..03-10
    assert_eq!(m.handle_mouse(mouse(MouseKind::LeftDown, 0, 6, false), None), CalOutcome::Selected);
    assert_eq!(m.selection.selected(), Some((date(2024, 3, 10), date(2024, 3, 4))));
    // Control extends to day 19, at column 18, row 7
    assert_eq!(m.handle_mouse(mouse(MouseKind::LeftDown, 18, 7, true), None), CalOutcome::Selected);
    assert_eq!(m.selection.selected(), Some((date(2024, 3, 10), date(2024, 3, 20))));
    // dragging over day 4 extends to it
    assert_eq!(m.handle_mouse(mouse(MouseKind::LeftDrag, 15, 5, false), Some(0)), CalOutcome::Selected);
    assert_eq!(m.selection.selected(), Some((date(2024, 3, 10), date(2024, 3, 5))));
    // above the calendar: the first day
    assert_eq!(m.handle_mouse(mouse(MouseKind::LeftDrag, 20, 4, false), Some(0)), CalOutcome::Selected);
    assert_eq!(m.selection.selected(), Some((date(2024, 3, 10), date(2024, 3, 1))));
    // below the calendar: the last day
    assert_eq!(m.handle_mouse(mouse(MouseKind::LeftDrag, 20, 11, false), Some(0)), CalOutcome::Selected);
    assert_eq!(m.selection.selected(), Some((date(2024, 3, 10), date(2024, 3, 31))));
    // far away: nothing
    assert_eq!(m.handle_mouse(mouse(MouseKind::LeftDrag, 60, 40, false), Some(0)), CalOutcome::Continue);
    // a drag that began on the week numbers takes in whole weeks; the
    // lead comes back to the week of 03-15
    assert_eq!(m.handle_mouse(mouse(MouseKind::LeftDrag, 1, 7, false), Some(1)), CalOutcome::Selected);
    assert_eq!(m.selection.selected(), Some((date(2024, 3, 4), date(2024, 3, 17))));
    // a drag without one that began does nothing
    assert_eq!(m.handle_mouse(mouse(MouseKind::LeftDrag, 15, 5, false), None), CalOutcome::Continue);
    assert_eq!(m.selection.selected(), Some((date(2024, 3, 4), date(2024, 3, 17))));
}
