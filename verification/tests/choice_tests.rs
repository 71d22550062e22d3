use rat_widget::choice::{
    after_scroll, click_select, handle_key, handle_select, key_action, popup_item_at, ChoiceAction,
    ChoiceSelect, ScrollEffect, ScrollStep, SelectResult,
};
use rat_widget::combobox::{choice_outcome, handle_select as combobox_select, ComboboxOutcome, ComboboxSelect};
use rat_widget::event::{MouseInput, MouseKind};
use rat_widget::event::{KeyCode, KeyPress};
use rat_widget::choice::{
    button_symbol_dy, choice_areas, closed_scroll, move_down, move_to, move_up, nav_chars,
    popup_height, popup_rows, popup_scroll, reverse_select_by_char, select_by_char, ChoiceCore,
    ChoiceOutcome,
};
use rat_widget::geometry::Rect;
use rat_widget::event::Outcome;

fn choice(values: Vec<u32>) -> ChoiceCore<u32> {
    let mut c = ChoiceCore::new();
    c.set_values(values);
    c
}

#[test]
fn core_values_and_selection() {
    let mut c: ChoiceCore<u32> = ChoiceCore::new();
    assert!(c.is_empty());
    assert_eq!(c.selected(), None);
    assert_eq!(c.value(), 0);
    c.set_values(vec![10, 20, 30]);
    assert_eq!(c.values(), &[10, 20, 30]);
    // value 0 is not among the values
    assert_eq!(c.selected(), None);
    assert!(c.set_value(20));
    assert_eq!(c.selected(), Some(1));
    assert_eq!(c.value(), 20);
    assert!(c.set_selected(2));
    assert_eq!(c.value(), 30);
    assert!(!c.set_selected(2));
}

#[test]
fn core_default_value_and_clear() {
    let mut c = choice(vec![1, 2, 3]);
    c.set_default_value(Some(2));
    assert_eq!(c.default_value(), &Some(2));
    c.set_selected(0);
    assert!(c.clear());
    assert_eq!(c.value(), 2);
    assert_eq!(c.selected(), Some(1));
}

#[test]
fn core_clear_without_default_goes_to_type_default() {
    let mut c = choice(vec![0, 5, 7]);
    c.set_value(5);
    assert_eq!(c.selected(), Some(1));
    assert!(c.clear());
    assert_eq!(c.value(), 0);
    assert_eq!(c.selected(), Some(0));
    assert!(!c.clear());
    let mut c = choice(vec![5, 7]);
    c.set_value(5);
    assert!(c.clear());
    assert_eq!(c.value(), 0);
    assert_eq!(c.selected(), None);
}

#[test]
fn select_by_char_wraps_around() {
    let mut c = choice(vec![1, 2, 3]);
    let nav = vec![vec!['a'], vec!['b'], vec!['a']];
    assert!(select_by_char(&mut c, &nav, 'A'));
    assert_eq!(c.selected(), Some(0));
    assert!(select_by_char(&mut c, &nav, 'a'));
    assert_eq!(c.selected(), Some(2));
    assert!(select_by_char(&mut c, &nav, 'a'));
    assert_eq!(c.selected(), Some(0));
    assert!(!select_by_char(&mut c, &nav, 'x'));
    assert_eq!(c.selected(), Some(0));
}

#[test]
fn reverse_select_by_char_goes_back() {
    let mut c = choice(vec![1, 2, 3]);
    let nav = vec![vec!['a'], vec!['b'], vec!['a']];
    c.set_selected(0);
    assert!(reverse_select_by_char(&mut c, &nav, 'a'));
    assert_eq!(c.selected(), Some(2));
}

#[test]
fn move_functions() {
    let mut c = choice(vec![1, 2, 3, 4]);
    let mut popup = true;
    let (r, _) = move_to(&mut c, &mut popup, 1);
    assert_eq!(r, ChoiceOutcome::Value);
    assert_eq!(c.selected(), Some(1));
    let (r, _) = move_to(&mut c, &mut popup, 1);
    assert_eq!(r, ChoiceOutcome::Continue);
    let (r, _) = move_down(&mut c, &mut popup, 5);
    assert_eq!(r, ChoiceOutcome::Value);
    assert_eq!(c.selected(), Some(3));
    let (r, _) = move_up(&mut c, &mut popup, 2);
    assert_eq!(r, ChoiceOutcome::Value);
    assert_eq!(c.selected(), Some(1));
}

#[test]
fn moves_open_the_popup() {
    let mut c = choice(vec![1, 2, 3, 4]);
    c.set_selected(3);
    let mut popup = false;
    // nothing to move, but the popup opens
    let (r, _) = move_down(&mut c, &mut popup, 1);
    assert!(popup);
    assert_eq!(r, ChoiceOutcome::Changed);
    let mut popup = false;
    let (r, _) = move_up(&mut c, &mut popup, 1);
    assert!(popup);
    assert_eq!(r, ChoiceOutcome::Value);
    assert_eq!(c.selected(), Some(2));
    let mut popup = false;
    let (r, _) = move_to(&mut c, &mut popup, 2);
    assert!(popup);
    assert_eq!(r, ChoiceOutcome::Changed);
    // an empty list doesn't open it for down and up
    let mut e = choice(vec![]);
    let mut popup = false;
    let (r, _) = move_down(&mut e, &mut popup, 1);
    assert!(!popup);
    assert_eq!(r, ChoiceOutcome::Continue);
}

#[test]
fn handle_key_popup_and_moves() {
    let mut c = choice(vec![10, 20, 30]);
    let nav = vec![vec!['a'], vec!['b'], vec!['c']];
    let mut popup = false;
    assert_eq!(handle_key(&mut c, &nav, &mut popup, press(KeyCode::Enter, false), true, 5), ChoiceOutcome::Changed);
    assert!(popup);
    assert_eq!(handle_key(&mut c, &nav, &mut popup, press(KeyCode::Char(' '), false), true, 5), ChoiceOutcome::Changed);
    assert!(!popup);
    assert_eq!(handle_key(&mut c, &nav, &mut popup, press(KeyCode::Esc, false), true, 5), ChoiceOutcome::Continue);
    popup = true;
    assert_eq!(handle_key(&mut c, &nav, &mut popup, press(KeyCode::Esc, false), true, 5), ChoiceOutcome::Changed);
    assert!(!popup);
    assert_eq!(c.selected(), None);
    assert_eq!(handle_key(&mut c, &nav, &mut popup, press(KeyCode::Down, false), true, 5), ChoiceOutcome::Value);
    assert!(popup);
    assert_eq!(c.selected(), Some(0));
    assert_eq!(handle_key(&mut c, &nav, &mut popup, press(KeyCode::End, false), true, 5), ChoiceOutcome::Value);
    assert_eq!(c.value(), 30);
    assert_eq!(handle_key(&mut c, &nav, &mut popup, press(KeyCode::Char('b'), false), true, 5), ChoiceOutcome::Value);
    assert_eq!(c.selected(), Some(1));
    assert_eq!(handle_key(&mut c, &nav, &mut popup, press(KeyCode::Char('x'), false), true, 5), ChoiceOutcome::Continue);
    assert_eq!(handle_key(&mut c, &nav, &mut popup, press(KeyCode::Delete, false), true, 5), ChoiceOutcome::Value);
    assert_eq!(c.value(), 0);
    assert_eq!(c.selected(), None);
    assert_eq!(handle_key(&mut c, &nav, &mut popup, press(KeyCode::Down, false), false, 5), ChoiceOutcome::Continue);
    assert_eq!(c.selected(), None);
}

#[test]
fn choice_outcome_conversions() {
    assert!(!ChoiceOutcome::Continue.is_consumed());
    assert!(ChoiceOutcome::Value.is_consumed());
    assert_eq!(Outcome::from(ChoiceOutcome::Value), Outcome::Changed);
    assert_eq!(ChoiceOutcome::from(Outcome::Changed), ChoiceOutcome::Changed);
}

#[test]
fn choice_button_and_item_areas() {
    let (item, button) = choice_areas(Rect::new(4, 2, 20, 1));
    assert_eq!(item, Rect::new(4, 2, 17, 1));
    assert_eq!(button, Rect::new(21, 2, 3, 1));
    let (item, button) = choice_areas(Rect::new(0, 0, 2, 3));
    assert_eq!(item, Rect::new(0, 0, 0, 3));
    assert_eq!(button, Rect::new(0, 0, 3, 3));
}

#[test]
fn choice_button_symbol_row() {
    assert_eq!(button_symbol_dy(0), 0);
    assert_eq!(button_symbol_dy(1), 0);
    assert_eq!(button_symbol_dy(3), 1);
    assert_eq!(button_symbol_dy(4), 1);
    assert_eq!(button_symbol_dy(5), 2);
}

#[test]
fn choice_scroll_limits() {
    assert_eq!(closed_scroll(None, 10), (5, 5));
    assert_eq!(closed_scroll(None, 3), (0, 3));
    assert_eq!(closed_scroll(Some(7), 10), (3, 7));
    assert_eq!(popup_scroll(10, 4), (6, 4));
    assert_eq!(popup_scroll(2, 4), (0, 4));
}

#[test]
fn choice_popup_height_and_rows() {
    assert_eq!(popup_height(None, 10, 2), 7);
    assert_eq!(popup_height(Some(20), 10, 0), 10);
    assert_eq!(popup_height(Some(3), 0, 2), 2);
    let rows = popup_rows(Rect::new(2, 3, 10, 3), 4, 6, Some(5));
    assert_eq!(rows.len(), 3);
    assert_eq!(rows[0].area, Rect::new(2, 3, 10, 1));
    assert_eq!(rows[2].area, Rect::new(2, 5, 10, 1));
    assert_eq!(rows[0].item, Some(4));
    assert_eq!(rows[1].item, Some(5));
    assert_eq!(rows[2].item, None);
    assert!(!rows[0].selected);
    assert!(rows[1].selected);
    assert!(!rows[2].selected);
    assert!(popup_rows(Rect::new(0, 0, 5, 0), 0, 3, None).is_empty());
}

#[test]
fn choice_nav_chars_lowercase() {
    assert_eq!(nav_chars(Some('A')), vec!['a']);
    assert_eq!(nav_chars(Some('x')), vec!['x']);
    assert_eq!(nav_chars(None), Vec::<char>::new());
    assert_eq!(nav_chars(Some('\u{130}')), vec!['i', '\u{307}']);
}

fn press(code: KeyCode, shift: bool) -> KeyPress {
    KeyPress { code, shift, control: false, alt: false }
}

#[test]
fn choice_key_actions() {
    assert_eq!(key_action(press(KeyCode::Down, false), false, 5, 10), None);
    assert_eq!(key_action(press(KeyCode::Char(' '), false), true, 5, 10), Some(ChoiceAction::FlipPopup));
    assert_eq!(key_action(press(KeyCode::Enter, false), true, 5, 10), Some(ChoiceAction::FlipPopup));
    assert_eq!(key_action(press(KeyCode::Esc, false), true, 5, 10), Some(ChoiceAction::ClosePopup));
    assert_eq!(key_action(press(KeyCode::Char('b'), false), true, 5, 10), Some(ChoiceAction::SelectByChar('b')));
    assert_eq!(key_action(press(KeyCode::Char('B'), true), true, 5, 10), Some(ChoiceAction::ReverseSelectByChar('B')));
    assert_eq!(key_action(press(KeyCode::Backspace, false), true, 5, 10), Some(ChoiceAction::Clear));
    assert_eq!(key_action(press(KeyCode::PageDown, false), true, 5, 10), Some(ChoiceAction::MoveDown(5)));
    assert_eq!(key_action(press(KeyCode::Up, false), true, 5, 10), Some(ChoiceAction::MoveUp(1)));
    assert_eq!(key_action(press(KeyCode::End, false), true, 5, 10), Some(ChoiceAction::MoveTo(9)));
    assert_eq!(key_action(press(KeyCode::End, false), true, 5, 0), Some(ChoiceAction::MoveTo(0)));
    assert_eq!(key_action(press(KeyCode::Down, true), true, 5, 10), None);
    assert_eq!(key_action(KeyPress { code: KeyCode::Down, shift: false, control: true, alt: false }, true, 5, 10), None);
}

#[test]
fn choice_popup_item_under_mouse() {
    let rows = vec![Rect::new(2, 3, 10, 1), Rect::new(2, 4, 10, 1), Rect::new(2, 5, 10, 1)];
    assert_eq!(popup_item_at(&rows, 7, 5, 4), Some(8));
    assert_eq!(popup_item_at(&rows, 0, 2, 3), Some(0));
    assert_eq!(popup_item_at(&rows, 7, 12, 4), None);
    assert_eq!(popup_item_at(&rows, 7, 5, 6), None);
}

fn mouse(kind: MouseKind, column: u16, row: u16) -> MouseInput {
    MouseInput { kind, column, row, shift: false, control: false, alt: false }
}

fn rows() -> Vec<Rect> {
    vec![Rect::new(1, 1, 10, 1), Rect::new(1, 2, 10, 1), Rect::new(1, 3, 10, 1)]
}

#[test]
fn select_with_wheel_moves_the_selection() {
    let mut c = choice(vec![1, 2, 3, 4, 5]);
    c.set_selected(1);
    let mut popup = false;
    let area = Rect::new(0, 0, 12, 5);
    let wheel = mouse(MouseKind::ScrollDown, 3, 2);
    let r = handle_select(&mut c, &mut popup, ChoiceSelect::MouseScroll, Some(ScrollStep::Down(2)), wheel, area, &rows(), 0);
    assert_eq!(r, SelectResult::Done(ChoiceOutcome::Value));
    assert_eq!(c.selected(), Some(3));
    assert!(popup);
    let r = handle_select(&mut c, &mut popup, ChoiceSelect::MouseScroll, Some(ScrollStep::VPos(0)), wheel, area, &rows(), 0);
    assert_eq!(r, SelectResult::Done(ChoiceOutcome::Value));
    assert_eq!(c.selected(), Some(0));
}

#[test]
fn select_with_click_and_move() {
    let mut c = choice(vec![1, 2, 3, 4, 5]);
    let mut popup = true;
    let area = Rect::new(0, 0, 12, 5);
    // a click on the second row, the list scrolled by 2
    let r = handle_select(&mut c, &mut popup, ChoiceSelect::MouseClick, None, mouse(MouseKind::LeftDown, 3, 2), area, &rows(), 2);
    assert_eq!(r, SelectResult::Done(ChoiceOutcome::Value));
    assert_eq!(c.selected(), Some(3));
    // in the popup, off the rows
    let r = handle_select(&mut c, &mut popup, ChoiceSelect::MouseClick, None, mouse(MouseKind::LeftDown, 3, 4), area, &rows(), 2);
    assert_eq!(r, SelectResult::Done(ChoiceOutcome::Unchanged));
    // outside the popup
    let r = handle_select(&mut c, &mut popup, ChoiceSelect::MouseClick, None, mouse(MouseKind::LeftDown, 30, 2), area, &rows(), 2);
    assert_eq!(r, SelectResult::Done(ChoiceOutcome::Continue));
    // moving selects only with MouseMove
    let r = click_select(&mut c, &mut popup, ChoiceSelect::MouseClick, mouse(MouseKind::Moved, 3, 1), area, &rows(), 0);
    assert_eq!(r, ChoiceOutcome::Continue);
    let r = click_select(&mut c, &mut popup, ChoiceSelect::MouseMove, mouse(MouseKind::Moved, 3, 1), area, &rows(), 0);
    assert_eq!(r, ChoiceOutcome::Value);
    assert_eq!(c.selected(), Some(0));
}

#[test]
fn select_scrolls_by_mode() {
    let mut c = choice(vec![1, 2, 3, 4, 5]);
    let mut popup = true;
    let area = Rect::new(0, 0, 12, 5);
    let wheel = mouse(MouseKind::ScrollDown, 3, 2);
    // MouseMove without a selection ignores the wheel
    let r = handle_select(&mut c, &mut popup, ChoiceSelect::MouseMove, Some(ScrollStep::Down(1)), wheel, area, &rows(), 0);
    assert_eq!(r, SelectResult::Done(ChoiceOutcome::Continue));
    c.set_selected(3);
    let r = handle_select(&mut c, &mut popup, ChoiceSelect::MouseMove, Some(ScrollStep::Down(1)), wheel, area, &rows(), 2);
    assert_eq!(r, SelectResult::Scroll(ScrollStep::Down(1), ScrollEffect::Reselect(1)));
    // the list moved to offset 3: the same row holds value 4
    assert_eq!(after_scroll(&mut c, ScrollEffect::Reselect(1), true, 3), ChoiceOutcome::Value);
    assert_eq!(c.selected(), Some(4));
    let r = handle_select(&mut c, &mut popup, ChoiceSelect::MouseClick, Some(ScrollStep::Up(1)), wheel, area, &rows(), 3);
    assert_eq!(r, SelectResult::Scroll(ScrollStep::Up(1), ScrollEffect::Changed));
    assert_eq!(after_scroll(&mut c, ScrollEffect::Changed, false, 3), ChoiceOutcome::Unchanged);
    assert_eq!(after_scroll(&mut c, ScrollEffect::Value, true, 2), ChoiceOutcome::Value);
    assert_eq!(c.selected(), Some(4));
}

#[test]
fn combobox_outcome_of_choice() {
    assert_eq!(choice_outcome(ChoiceOutcome::Value), ComboboxOutcome::Value);
    assert_eq!(choice_outcome(ChoiceOutcome::Continue), ComboboxOutcome::Continue);
    assert_eq!(choice_outcome(ChoiceOutcome::Changed), ComboboxOutcome::Changed);
}

#[test]
fn selected_index_holds_the_value() {
    let mut c: ChoiceCore<u32> = ChoiceCore::new();
    c.set_value(30);
    assert_eq!(c.selected(), None);
    c.set_values(vec![10, 20, 30]);
    assert_eq!(c.selected(), Some(2));
    assert_eq!(c.values()[2], c.value());
    c.set_selected(0);
    assert_eq!(c.values()[0], c.value());
    c.set_default_value(Some(20));
    c.clear();
    assert_eq!(c.selected(), Some(1));
    assert_eq!(c.values()[1], c.value());
    c.set_values(vec![5, 20]);
    assert_eq!(c.selected(), Some(1));
    assert_eq!(c.value(), 20);
}

#[test]
fn combobox_select_in_popup() {
    let mut c = choice(vec![1, 2, 3, 4, 5]);
    let mut popup = true;
    let area = Rect::new(0, 0, 12, 5);
    let r = combobox_select(&mut c, &mut popup, ChoiceSelect::MouseClick, None, mouse(MouseKind::LeftDown, 3, 3), area, &rows(), 1);
    assert_eq!(r, ComboboxSelect::Done(ComboboxOutcome::Value));
    assert_eq!(c.selected(), Some(3));
    let r = combobox_select(&mut c, &mut popup, ChoiceSelect::MouseClick, Some(ScrollStep::Down(2)), mouse(MouseKind::ScrollDown, 3, 3), area, &rows(), 1);
    assert_eq!(r, ComboboxSelect::Scroll(ScrollStep::Down(2), ScrollEffect::Changed));
}
