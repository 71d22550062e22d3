use rat_widget::event::{KeyCode, KeyPress, MouseInput, MouseKind, Outcome};
use rat_widget::geometry::Rect;
use rat_widget::splitter::{SplitResize, SplitState, SplitType};

fn state(lengths: Vec<u16>) -> SplitState {
    let mut s = SplitState::new();
    s.set_area_lengths(lengths);
    s
}

#[test]
fn hide_gives_length_to_next_area_and_show_restores_it() {
    let mut s = state(vec![10, 20, 30]);
    assert_eq!(s.total_area_len(), 60);
    assert!(s.hide_split(0));
    assert_eq!(s.area_lengths(), &[1, 29, 30]);
    assert_eq!(s.hidden_lengths(), &[9, 0, 0]);
    assert!(s.is_hidden(0));
    assert_eq!(s.total_area_len(), 60);
    // hiding again does nothing
    assert!(!s.hide_split(0));
    assert!(s.show_split(0));
    assert_eq!(s.area_lengths(), &[10, 20, 30]);
    assert_eq!(s.hidden_lengths(), &[0, 0, 0]);
    assert!(!s.show_split(0));
}

#[test]
fn show_restores_a_receiver_of_split_width() {
    // the area that takes the hidden length is just as long as the split
    let mut s = state(vec![10, 1, 30]);
    assert!(s.hide_split(0));
    assert_eq!(s.area_lengths(), &[1, 10, 30]);
    assert!(s.show_split(0));
    assert_eq!(s.area_lengths(), &[10, 1, 30]);
    assert_eq!(s.hidden_lengths(), &[0, 0, 0]);
}

#[test]
fn hide_last_gives_length_to_previous_area() {
    let mut s = state(vec![10, 20, 30]);
    assert!(s.hide_split(2));
    assert_eq!(s.area_lengths(), &[10, 50, 0]);
    assert_eq!(s.hidden_lengths(), &[0, 0, 30]);
    assert!(s.show_split(2));
    assert_eq!(s.area_lengths(), &[10, 20, 30]);
}

#[test]
fn hide_needs_another_visible_area() {
    let mut s = state(vec![10]);
    assert!(!s.hide_split(0));
    assert_eq!(s.area_lengths(), &[10]);
}

#[test]
fn split_positions() {
    let s = state(vec![10, 20, 30]);
    assert_eq!(s.split_pos(0), 10);
    assert_eq!(s.split_pos(1), 30);
    assert_eq!(s.area_len(2), 30);
    assert_eq!(s.len(), 3);
}

#[test]
fn set_split_pos_neighbours_keeps_total() {
    let mut s = state(vec![10, 20, 30]);
    s.resize = SplitResize::Neighbours;
    s.set_split_pos(0, 15);
    assert_eq!(s.area_lengths(), &[15, 15, 30]);
    assert_eq!(s.total_area_len(), 60);
}

#[test]
fn select_split_wraps() {
    let mut s = state(vec![10, 20, 30]);
    assert!(!s.select_next_split());
    s.focused = true;
    assert!(s.select_next_split());
    assert_eq!(s.focus_marker, Some(1));
    assert!(s.select_next_split());
    assert_eq!(s.focus_marker, Some(0));
    assert!(s.select_prev_split());
    assert_eq!(s.focus_marker, Some(1));
}

#[test]
fn split_type_is_full() {
    assert!(SplitType::FullEmpty.is_full());
    assert!(!SplitType::Scroll.is_full());
    assert!(!SplitType::Widget.is_full());
}

#[test]
fn split_keys_move_and_select() {
    let right = KeyPress { code: KeyCode::Right, shift: false, control: false, alt: false };
    let left = KeyPress { code: KeyCode::Left, ..right };
    let mut s = state(vec![10, 20, 30]);
    s.resize = SplitResize::Neighbours;
    // without the focus nothing happens
    assert_eq!(s.handle_key(right), Outcome::Continue);
    s.focused = true;
    // no marked split
    assert_eq!(s.handle_key(right), Outcome::Continue);
    s.focus_marker = Some(0);
    assert_eq!(s.handle_key(right), Outcome::Changed);
    assert_eq!(s.area_lengths(), &[11, 19, 30]);
    assert_eq!(s.handle_key(left), Outcome::Changed);
    assert_eq!(s.area_lengths(), &[10, 20, 30]);
    // Alt-Right marks the next split, wrapping after the last one
    assert_eq!(s.handle_key(KeyPress { alt: true, ..right }), Outcome::Changed);
    assert_eq!(s.focus_marker, Some(1));
    assert_eq!(s.handle_key(KeyPress { alt: true, ..right }), Outcome::Changed);
    assert_eq!(s.focus_marker, Some(0));
    assert_eq!(s.handle_key(KeyPress { alt: true, ..left }), Outcome::Changed);
    assert_eq!(s.focus_marker, Some(1));
    assert_eq!(s.handle_key(KeyPress { code: KeyCode::Home, ..right }), Outcome::Continue);
    assert_eq!(s.handle_key(KeyPress { control: true, ..right }), Outcome::Continue);
    assert_eq!(s.area_lengths(), &[10, 20, 30]);
}

#[test]
fn split_mouse_drags() {
    let mut s = state(vec![10, 20, 30]);
    s.resize = SplitResize::Neighbours;
    s.inner = Rect::new(0, 0, 60, 5);
    s.direction = rat_widget::geometry::Direction::Horizontal;
    let e = MouseInput { kind: MouseKind::LeftDrag, column: 15, row: 2, shift: false, control: false, alt: false };
    assert_eq!(s.handle_mouse(e, true, Some(0), false), Outcome::Changed);
    assert_eq!(s.area_lengths(), &[10, 20, 30]);
    assert_eq!(s.handle_mouse(e, false, Some(0), false), Outcome::Changed);
    assert_eq!(s.area_lengths(), &[15, 15, 30]);
    assert_eq!(s.handle_mouse(e, false, Some(0), false), Outcome::Unchanged);
    assert_eq!(s.handle_mouse(e, false, None, true), Outcome::Changed);
    assert_eq!(s.handle_mouse(e, false, None, false), Outcome::Continue);
}
