use chrono::{Datelike, NaiveDate};
use rat_widget::calendar::calendar::{range_calendar_key_of, CalendarState, CalendarStep};
use rat_widget::calendar::date::Date;
use rat_widget::calendar::event::CalOutcome;
use rat_widget::calendar::month::MonthState;
use rat_widget::calendar::selection::no_selection::NoSelection;
use rat_widget::calendar::selection::range_selection::RangeSelection;
use rat_widget::calendar::selection::single_selection::SingleSelection;
use rat_widget::event::{KeyCode, KeyPress, MouseInput, MouseKind};
use rat_widget::geometry::Rect;

fn date(y: i32, m: u32, d: u32) -> Date {
    let nd = NaiveDate::from_ymd_opt(y, m, d).unwrap();
    Date::from_num_days(nd.num_days_from_ce()).unwrap()
}

fn starts<const N: usize, S>(c: &CalendarState<N, S>) -> Vec<Date> {
    c.months.iter().map(|m| m.start_date()).collect()
}

fn key(code: KeyCode) -> KeyPress {
    KeyPress { code, shift: false, control: false, alt: false }
}

fn shift(code: KeyCode) -> KeyPress {
    KeyPress { code, shift: true, control: false, alt: false }
}

fn control(code: KeyCode) -> KeyPress {
    KeyPress { code, shift: false, control: true, alt: false }
}

fn alt(code: KeyCode) -> KeyPress {
    KeyPress { code, shift: false, control: false, alt: true }
}

fn mouse(kind: MouseKind, column: u16, row: u16) -> MouseInput {
    MouseInput { kind, column, row, shift: false, control: false, alt: false }
}

/// Month `k` lies 30 columns right of month `k - 1`; day `i` of a month
/// at column `3 + 3 * (i % 7)`, row `5 + i / 7` within it.
fn layout<S>(m: &mut MonthState<S>, k: u16) {
    let x0 = 30 * k;
    m.area = Rect::new(x0, 0, 25, 12);
    m.area_cal = Rect::new(x0 + 3, 5, 21, 6);
    m.area_weeknum = Rect::new(x0, 5, 2, 6);
    for i in 0..31u16 {
        m.area_days[i as usize] = Rect::new(x0 + 3 + 3 * (i % 7), 5 + i / 7, 2, 1);
    }
    for w in 0..6u16 {
        m.area_weeks[w as usize] = Rect::new(x0, 5 + w, 2, 1);
    }
}

#[test]
fn range_calendar_key_steps() {
    assert_eq!(range_calendar_key_of(key(KeyCode::PageUp)), Some((CalendarStep::ToPrev(1, 0), false)));
    assert_eq!(range_calendar_key_of(shift(KeyCode::PageDown)), Some((CalendarStep::NextMonth(1), true)));
    assert_eq!(range_calendar_key_of(shift(KeyCode::Left)), Some((CalendarStep::PrevDay(1), true)));
    assert_eq!(range_calendar_key_of(alt(KeyCode::Down)), Some((CalendarStep::NextWeek(1), false)));
    assert_eq!(range_calendar_key_of(control(KeyCode::Left)), None);
    assert_eq!(range_calendar_key_of(key(KeyCode::Home)), None);
}

#[test]
fn range_calendar_keys() {
    let mut c = CalendarState::<2, RangeSelection>::new();
    c.set_start_date(date(2024, 3, 1));
    let today = date(2024, 7, 15);
    assert_eq!(c.handle_key(key(KeyCode::Right), today), CalOutcome::Continue);
    assert_eq!(c.selected(), None);
    c.focused = true;
    // no month has the focus: the calendar selects the first day
    assert_eq!(c.handle_key(key(KeyCode::Right), today), CalOutcome::Selected);
    assert_eq!(c.selected(), Some((date(2024, 3, 1), date(2024, 3, 1))));
    assert!(c.months[0].focused);
    // now the focused month takes the key
    assert_eq!(c.handle_key(key(KeyCode::Right), today), CalOutcome::Selected);
    assert_eq!(c.selected(), Some((date(2024, 3, 2), date(2024, 3, 2))));
    assert_eq!(c.handle_key(shift(KeyCode::Right), today), CalOutcome::Selected);
    assert_eq!(c.selected(), Some((date(2024, 3, 2), date(2024, 3, 3))));
    // Control-A: the primary month
    assert_eq!(c.handle_key(control(KeyCode::Char('a')), today), CalOutcome::Selected);
    assert_eq!(c.selected_range(), Some((date(2024, 3, 1), date(2024, 3, 31))));
    assert_eq!(c.handle_key(control(KeyCode::Char('a')), today), CalOutcome::Continue);
    // Control-Home: today
    assert_eq!(c.handle_key(control(KeyCode::Home), today), CalOutcome::Selected);
    assert_eq!(c.selected(), Some((today, today)));
    assert_eq!(starts(&c), vec![date(2024, 7, 1), date(2024, 8, 1)]);
    // Page down: a month later
    assert_eq!(c.handle_key(key(KeyCode::PageDown), today), CalOutcome::Selected);
    assert_eq!(c.selected(), Some((date(2024, 8, 15), date(2024, 8, 15))));
    assert!(c.months[1].focused && !c.months[0].focused);
    // Alt-Down in August: the week after the one of 08-15
    assert_eq!(c.handle_key(alt(KeyCode::Down), today), CalOutcome::Selected);
    assert_eq!(c.selected(), Some((date(2024, 8, 25), date(2024, 8, 19))));
    assert_eq!(c.handle_key(key(KeyCode::Char('x')), today), CalOutcome::Continue);
    assert_eq!(c.selected(), Some((date(2024, 8, 25), date(2024, 8, 19))));
}

#[test]
fn range_calendar_mouse() {
    let mut c = CalendarState::<2, RangeSelection>::new();
    c.set_start_date(date(2024, 3, 1));
    c.focused = true;
    for k in 0..2 {
        layout(&mut c.months[k], k as u16);
    }
    // day 4 of April, in the second month
    assert_eq!(c.handle_month_mouse(mouse(MouseKind::LeftDown, 30 + 15, 5), None), CalOutcome::Selected);
    assert_eq!(c.selected(), Some((date(2024, 4, 5), date(2024, 4, 5))));
    assert!(c.months[1].focused && !c.months[0].focused);
    assert_eq!(c.primary_idx(), 1);
    // a drag that began on the days of March extends to 03-03
    assert_eq!(c.handle_month_mouse(mouse(MouseKind::LeftDrag, 9, 5), Some(0)), CalOutcome::Selected);
    assert_eq!(c.selected(), Some((date(2024, 4, 5), date(2024, 3, 3))));
    assert_eq!(starts(&c), vec![date(2024, 3, 1), date(2024, 4, 1)]);
    // outside all months
    assert_eq!(c.handle_month_mouse(mouse(MouseKind::LeftDown, 100, 50), None), CalOutcome::Continue);
}

#[test]
fn calendar_wheel_scrolls() {
    let mut c = CalendarState::<2, NoSelection>::new();
    c.set_start_date(date(2024, 3, 1));
    for k in 0..2 {
        layout(&mut c.months[k], k as u16);
    }
    // the gap between the months belongs to their union
    assert_eq!(c.handle_wheel(mouse(MouseKind::ScrollDown, 27, 3), Some(1)), CalOutcome::Changed);
    assert_eq!(starts(&c), vec![date(2024, 4, 1), date(2024, 5, 1)]);
    assert_eq!(c.primary_idx(), 1);
    assert_eq!(c.handle_wheel(mouse(MouseKind::ScrollUp, 3, 3), None), CalOutcome::Changed);
    assert_eq!(starts(&c), vec![date(2024, 3, 1), date(2024, 4, 1)]);
    assert_eq!(c.handle_wheel(mouse(MouseKind::ScrollUp, 100, 3), None), CalOutcome::Continue);
    let mut e = mouse(MouseKind::ScrollUp, 3, 3);
    e.control = true;
    assert_eq!(c.handle_wheel(e, None), CalOutcome::Continue);
    c.set_step(0);
    assert_eq!(c.handle_wheel(mouse(MouseKind::ScrollUp, 3, 3), None), CalOutcome::Continue);
    assert_eq!(starts(&c), vec![date(2024, 3, 1), date(2024, 4, 1)]);
}

#[test]
fn no_selection_calendar_keys() {
    let mut c = CalendarState::<3, NoSelection>::new();
    c.set_start_date(date(2024, 1, 1));
    let today = date(2024, 7, 15);
    assert_eq!(c.handle_key(key(KeyCode::Down), today), CalOutcome::Continue);
    c.focused = true;
    assert_eq!(c.handle_key(key(KeyCode::Down), today), CalOutcome::Changed);
    assert_eq!(c.primary_idx(), 1);
    assert!(c.months[1].focused);
    assert_eq!(c.handle_key(key(KeyCode::Up), today), CalOutcome::Changed);
    assert_eq!(c.primary_idx(), 0);
    // the month before January is not shown: scroll back
    assert_eq!(c.handle_key(key(KeyCode::PageUp), today), CalOutcome::Changed);
    assert_eq!(starts(&c), vec![date(2023, 12, 1), date(2024, 1, 1), date(2024, 2, 1)]);
    assert_eq!(c.handle_key(control(KeyCode::Home), today), CalOutcome::Changed);
    assert_eq!(starts(&c), vec![date(2024, 7, 1), date(2024, 8, 1), date(2024, 9, 1)]);
    assert_eq!(c.handle_key(key(KeyCode::Left), today), CalOutcome::Continue);
}

#[test]
fn single_calendar_keys_and_mouse() {
    let mut c = CalendarState::<2, SingleSelection>::new();
    c.set_start_date(date(2024, 3, 1));
    c.focused = true;
    assert_eq!(c.handle_key(key(KeyCode::Right)), CalOutcome::Selected);
    assert_eq!(c.selected(), Some(date(2024, 3, 1)));
    assert!(c.months[0].focused);
    assert_eq!(c.handle_key(key(KeyCode::Right)), CalOutcome::Selected);
    assert_eq!(c.selected(), Some(date(2024, 3, 2)));
    // up leaves March: the calendar scrolls back
    assert_eq!(c.handle_key(key(KeyCode::Up)), CalOutcome::Selected);
    assert_eq!(c.selected(), Some(date(2024, 2, 24)));
    assert_eq!(starts(&c), vec![date(2024, 2, 1), date(2024, 3, 1)]);
    assert_eq!(c.handle_key(key(KeyCode::Home)), CalOutcome::Continue);
    for k in 0..2 {
        layout(&mut c.months[k], k as u16);
    }
    // day 9 of March, in the second month
    assert_eq!(c.handle_month_mouse(mouse(MouseKind::LeftDown, 30 + 9, 6)), CalOutcome::Selected);
    assert_eq!(c.selected(), Some(date(2024, 3, 10)));
    assert!(c.months[1].focused);
    assert_eq!(c.handle_month_mouse(mouse(MouseKind::LeftDown, 30 + 9, 6)), CalOutcome::Continue);
}
