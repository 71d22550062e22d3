use rat_widget::event::{KeyCode, KeyPress, Outcome};
use rat_widget::caption::Caption;
use rat_widget::checkbox::{check_len, CheckboxState};
use rat_widget::geometry::{Constraint, Flex, Padding, Position, Rect, Size};
use rat_widget::layout::layout_dialog::{layout_dialog, DialogItem};
use rat_widget::layout::layout_grid::{layout_as_grid, simple_grid};
use rat_widget::layout::layout_middle::layout_middle;
use rat_widget::layout::layout_outer::LayoutOuter;
use rat_widget::layout::solver::Layout;
use ratatui_core::layout::Constraint as C;

fn rect(x: u16, y: u16, width: u16, height: u16) -> Rect {
    Rect { x, y, width, height }
}

fn tui(c: Constraint) -> C {
    match c {
        Constraint::Min(v) => C::Min(v),
        Constraint::Max(v) => C::Max(v),
        Constraint::Length(v) => C::Length(v),
        Constraint::Percentage(v) => C::Percentage(v),
        Constraint::Ratio(a, b) => C::Ratio(a, b),
        Constraint::Fill(v) => C::Fill(v),
    }
}

fn from_tui(r: ratatui_core::layout::Rect) -> Rect {
    rect(r.x, r.y, r.width, r.height)
}

#[test]
fn split_vertical_as_documented() {
    let l = Layout::vertical(vec![Constraint::Length(5), Constraint::Fill(1)]);
    assert_eq!(l.split(rect(2, 2, 10, 10)), vec![rect(2, 2, 10, 5), rect(2, 7, 10, 5)]);
}

#[test]
fn split_horizontal_ratio_and_spacing() {
    let l = Layout::horizontal(vec![Constraint::Ratio(1, 3), Constraint::Ratio(2, 3)]);
    assert_eq!(l.split(rect(0, 0, 9, 2)), vec![rect(0, 0, 3, 2), rect(3, 0, 6, 2)]);
    let l = l.spacing(1);
    assert_eq!(l.split(rect(0, 0, 10, 2)), vec![rect(0, 0, 3, 2), rect(4, 0, 6, 2)]);
}

#[test]
fn split_matches_solver_both_directions() {
    let cs = vec![
        Constraint::Min(3),
        Constraint::Percentage(30),
        Constraint::Max(7),
        Constraint::Fill(2),
        Constraint::Length(4),
    ];
    for flex in [
        Flex::Legacy,
        Flex::Start,
        Flex::End,
        Flex::Center,
        Flex::SpaceBetween,
        Flex::SpaceEvenly,
        Flex::SpaceAround,
    ] {
        let tflex = match flex {
            Flex::Legacy => ratatui_core::layout::Flex::Legacy,
            Flex::Start => ratatui_core::layout::Flex::Start,
            Flex::End => ratatui_core::layout::Flex::End,
            Flex::Center => ratatui_core::layout::Flex::Center,
            Flex::SpaceBetween => ratatui_core::layout::Flex::SpaceBetween,
            Flex::SpaceEvenly => ratatui_core::layout::Flex::SpaceEvenly,
            Flex::SpaceAround => ratatui_core::layout::Flex::SpaceAround,
        };
        let area = rect(3, 5, 60, 40);
        let mine = Layout::vertical(cs.clone()).spacing(2).flex(flex).split(area);
        let theirs: Vec<Rect> = ratatui_core::layout::Layout::vertical(cs.iter().map(|c| tui(*c)))
            .spacing(2)
            .flex(tflex)
            .split(ratatui_core::layout::Rect::new(3, 5, 60, 40))
            .iter()
            .map(|r| from_tui(*r))
            .collect();
        assert_eq!(mine, theirs);
        let mine = Layout::horizontal(cs.clone()).spacing(2).flex(flex).split(area);
        let theirs: Vec<Rect> =
            ratatui_core::layout::Layout::horizontal(cs.iter().map(|c| tui(*c)))
                .spacing(2)
                .flex(tflex)
                .split(ratatui_core::layout::Rect::new(3, 5, 60, 40))
                .iter()
                .map(|r| from_tui(*r))
                .collect();
        assert_eq!(mine, theirs);
    }
}

#[test]
fn middle_inside_margins() {
    let r = layout_middle(
        rect(0, 0, 20, 10),
        Constraint::Length(2),
        Constraint::Length(3),
        Constraint::Length(1),
        Constraint::Length(1),
    );
    assert_eq!(r, rect(2, 1, 15, 8));
}

#[test]
fn outer_position_and_size() {
    let o = LayoutOuter::new()
        .position(Position { x: 5, y: 3 })
        .size(Size { width: 10, height: 4 });
    assert_eq!(o.layout(rect(0, 0, 40, 20)), rect(5, 3, 10, 4));
    let o = LayoutOuter::new()
        .left(Constraint::Length(2))
        .right(Constraint::Length(3))
        .top(Constraint::Length(1))
        .bottom(Constraint::Length(2));
    assert_eq!(o.layout(rect(0, 0, 40, 20)), rect(2, 1, 35, 17));
    // a width replaces the right margin
    let o = o.width(Constraint::Length(10));
    assert_eq!(o.layout(rect(0, 0, 40, 20)), rect(2, 1, 10, 17));
    let (h, v) = o.constraints();
    assert_eq!(h, vec![Constraint::Length(2), Constraint::Length(10), Constraint::Fill(1)]);
    assert_eq!(v, vec![Constraint::Length(1), Constraint::Fill(1), Constraint::Length(2)]);
}

#[test]
fn dialog_with_buttons_at_the_end() {
    let l = layout_dialog(
        rect(0, 0, 40, 10),
        Padding { left: 1, right: 1, top: 1, bottom: 1 },
        vec![Constraint::Length(6), Constraint::Length(6)],
        1,
        Flex::End,
    );
    assert_eq!(l.widget_len(), 5);
    assert_eq!(l.widget(0), rect(1, 1, 38, 8));
    assert_eq!(l.widget(1), rect(1, 1, 38, 6));
    assert_eq!(l.widget(2), rect(1, 8, 38, 1));
    assert_eq!(l.widget(3), rect(26, 8, 6, 1));
    assert_eq!(l.widget(4), rect(33, 8, 6, 1));
    assert_eq!(l.widget_key(0), DialogItem::Inner);
    assert_eq!(l.widget_key(4), DialogItem::Button(1));
    assert_eq!(l.try_index_of(DialogItem::Button(0)), Some(3));
    assert_eq!(l.area(), rect(0, 0, 40, 10));
    assert_eq!(l.page_size(), Size { width: 40, height: 10 });
    assert_eq!(l.page_count(), 1);
    let o = LayoutOuter::new().position(Position { x: 10, y: 0 });
    let l2 = o.layout_dialog(
        rect(0, 0, 50, 10),
        Padding { left: 1, right: 1, top: 1, bottom: 1 },
        vec![Constraint::Length(6), Constraint::Length(6)],
        1,
        Flex::End,
    ).unwrap();
    assert_eq!(l2.widget(3), rect(36, 8, 6, 1));
    // a padding past the coordinates gives no layout
    let none = o.layout_dialog(
        rect(0, 0, 50, 10),
        Padding { left: u16::MAX, right: 0, top: 1, bottom: 1 },
        vec![Constraint::Length(6)],
        1,
        Flex::End,
    );
    assert!(none.is_none());
}

#[test]
fn grid_cells_by_column_and_row() {
    let g = layout_as_grid(
        rect(10, 20, 30, 12),
        Layout::horizontal(vec![
            Constraint::Length(5),
            Constraint::Fill(1),
            Constraint::Length(5),
        ]),
        Layout::vertical(vec![Constraint::Length(2), Constraint::Fill(1)]),
    );
    assert_eq!(g.widget_len(), 6);
    let i = g.try_index_of((1, 1)).expect("cell");
    assert_eq!(i, 3);
    assert_eq!(g.widget(i), rect(15, 22, 20, 10));
    assert_eq!(g.widget(0), rect(10, 20, 5, 2));
    assert_eq!(g.widget_key(5), (2, 1));
    let s = simple_grid(
        rect(10, 20, 30, 12),
        vec![Constraint::Length(5), Constraint::Fill(1), Constraint::Length(5)],
        vec![Constraint::Length(2), Constraint::Fill(1)],
    );
    assert_eq!(s.len(), 3);
    assert_eq!(s[1][1], rect(15, 22, 20, 10));
    assert_eq!(s[2][0], rect(35, 20, 5, 2));
}

#[test]
fn checkbox_state_and_areas() {
    assert_eq!(check_len("[\u{2713}]", "[ ]"), 3);
    assert_eq!(check_len("x", "[ ]"), 3);
    let mut s = CheckboxState::new();
    assert!(!s.checked());
    s.flip_checked();
    assert!(s.value());
    s.flip_checked();
    assert!(!s.checked());
    s.set_value(true);
    s.layout(rect(0, 0, 20, 3), rect(1, 1, 18, 1), 3, None);
    assert!(s.checked);
    assert_eq!(s.check_area, rect(1, 1, 3, 1));
    assert_eq!(s.text_area, rect(5, 1, 14, 1));
    s.layout(rect(0, 0, 2, 1), rect(0, 0, 2, 1), 3, Some(false));
    assert!(!s.checked);
    assert_eq!(s.text_area, rect(4, 0, 0, 1));
}

#[test]
fn caption_widths_count_graphemes() {
    let c = Caption::new().text("Hello").hotkey_text("F2");
    assert_eq!(c.text_width(), 5);
    assert_eq!(c.hotkey_width(), 2);
    assert_eq!(c.width(), 7);
    assert_eq!(c.height(), 1);
    // e with a combining accent is one grapheme of two chars
    let c = Caption::new().text("e\u{301}!");
    assert_eq!(c.text_width(), 2);
    let c = Caption::parse("_Name|F2").spacing(3).navchar('x');
    assert_eq!(c.text, "_Name");
    assert_eq!(c.navchar, Some('x'));
    assert_eq!(c.spacing, 3);
}

use rat_widget::paired::{split_constraints, PairSplit, Paired};

#[test]
fn paired_layout_splits() {
    let p = Paired::new((), ()).split(PairSplit::Fix1(18));
    assert_eq!(p.layout(rect(10, 10, 30, 1)), vec![rect(10, 10, 18, 1), rect(29, 10, 11, 1)]);
    let p = Paired::new((), ());
    assert_eq!(p.layout(rect(0, 0, 31, 1)), vec![rect(0, 0, 15, 1), rect(16, 0, 15, 1)]);
    let p = Paired::new((), ())
        .split(PairSplit::Fix(3, 4))
        .spacing(0)
        .flex(Flex::End);
    assert_eq!(p.layout(rect(0, 0, 10, 1)), vec![rect(3, 0, 3, 1), rect(6, 0, 4, 1)]);
}

#[test]
fn checkbox_events_flip() {
    let space = KeyPress { code: KeyCode::Char(' '), shift: false, control: false, alt: false };
    let enter = KeyPress { code: KeyCode::Enter, ..space };
    let mut s = CheckboxState::new();
    assert_eq!(s.handle_key(space), Outcome::Continue);
    assert!(!s.checked);
    s.focused = true;
    assert_eq!(s.handle_key(space), Outcome::Changed);
    assert!(s.checked);
    assert_eq!(s.handle_key(enter), Outcome::Changed);
    assert!(!s.checked);
    assert_eq!(s.handle_key(KeyPress { control: true, ..enter }), Outcome::Continue);
    assert_eq!(s.handle_key(KeyPress { code: KeyCode::Char('x'), ..space }), Outcome::Continue);
    assert!(!s.checked);
    assert_eq!(s.handle_mouse(true), Outcome::Changed);
    assert!(s.checked);
    assert_eq!(s.handle_mouse(false), Outcome::Continue);
    assert!(s.checked);
}

#[test]
fn paired_split_constraints() {
    assert_eq!(split_constraints(PairSplit::Fix1(7)), vec![Constraint::Length(7), Constraint::Fill(1)]);
    assert_eq!(split_constraints(PairSplit::Fix2(3)), vec![Constraint::Fill(1), Constraint::Length(3)]);
    assert_eq!(split_constraints(PairSplit::Ratio(1, 2)), vec![Constraint::Fill(1), Constraint::Fill(2)]);
}
