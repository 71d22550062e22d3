use rat_widget::msgdialog::MsgDialogState;
use rat_widget::pager::PageNavigationState;

#[test]
fn page_navigation_keeps_page_in_bounds() {
    let mut s = PageNavigationState::new();
    assert_eq!(s.page(), 0);
    assert_eq!(s.page_count(), 0);
    // without pages there is only page 0
    assert!(!s.next_page());
    assert!(!s.set_page(3));
    s.set_page_count(3);
    assert!(s.set_page(7));
    assert_eq!(s.page(), 2);
    assert!(!s.next_page());
    assert_eq!(s.page(), 2);
    assert!(s.prev_page());
    assert!(s.prev_page());
    assert!(!s.prev_page());
    assert_eq!(s.page(), 0);
    assert!(s.next_page());
    assert_eq!(s.page(), 1);
    s.set_page(2);
    s.set_page_count(2);
    assert_eq!(s.page(), 1);
    s.clear();
    assert_eq!((s.page(), s.page_count()), (0, 0));
}

#[test]
fn msg_dialog_appends_lines() {
    let mut d = MsgDialogState::new();
    assert!(!d.active());
    d.append("first");
    assert!(d.active());
    assert_eq!(d.message, "first");
    d.append("second");
    assert_eq!(d.message, "first\nsecond");
    d.title("Info");
    assert_eq!(d.message_title, "Info");
    d.clear();
    assert!(!d.active());
    assert_eq!(d.message, "");
    assert_eq!(d.message_title, "Info");
    let d = MsgDialogState::new_active("T", "m");
    assert!(d.active());
    assert_eq!(d.message, "m");
    assert_eq!(d.message_title, "T");
}

use rat_widget::clipper::{
    calc_layout, copy_span, first_visible, locate_area, scroll_limits, shift, show_area, CopySpan,
};
use rat_widget::geometry::{Position, Rect};
use rat_widget::layout::generic_layout::GenericLayout;

fn rect(x: u16, y: u16, width: u16, height: u16) -> Rect {
    Rect { x, y, width, height }
}

fn sample_layout() -> GenericLayout<u32, ()> {
    let mut l: GenericLayout<u32, ()> = GenericLayout::new();
    l.add(1, rect(0, 0, 10, 1), None, rect(0, 0, 0, 0));
    l.add(2, rect(0, 10, 10, 1), None, rect(0, 0, 0, 0));
    l.add(3, rect(5, 2, 30, 2), None, rect(0, 2, 4, 1));
    l.add_block(rect(0, 0, 40, 4), None);
    l
}

#[test]
fn clipper_buffer_covers_visible_parts() {
    let l = sample_layout();
    let (ext, max) = calc_layout(&l, rect(0, 0, 20, 5), 0, 0);
    assert_eq!(ext, rect(0, 0, 40, 4));
    assert_eq!(max, Position { x: 40, y: 11 });
    // scrolled down to the second widget only
    let (ext, _) = calc_layout(&l, rect(0, 0, 20, 2), 0, 10);
    assert_eq!(ext, rect(0, 10, 10, 1));
    // nothing visible: the view itself
    let (ext, _) = calc_layout(&l, rect(0, 0, 5, 2), 100, 100);
    assert_eq!(ext, rect(100, 100, 5, 2));
    assert_eq!(scroll_limits(rect(0, 0, 20, 5), max), (5, 6, 20, 20));
}

#[test]
fn clipper_copy_and_shift() {
    assert_eq!(
        copy_span(rect(5, 3, 30, 10), rect(2, 2, 20, 8), Position { x: 10, y: 0 }),
        CopySpan { off_x: 0, off_y: 3, cut_x: 5, cut_y: 0, len: 20, height: 5 }
    );
    assert_eq!(shift(rect(2, 2, 20, 8), Position { x: 10, y: 0 }), (-8, 2));
    assert_eq!(show_area(rect(5, 2, 30, 2), rect(0, 2, 4, 1)), Some(rect(0, 2, 35, 2)));
    assert_eq!(show_area(rect(5, 2, 0, 2), rect(0, 2, 4, 1)), Some(rect(0, 2, 4, 1)));
    assert_eq!(show_area(rect(5, 2, 0, 2), rect(0, 2, 4, 0)), None);
    let l = sample_layout();
    assert_eq!(first_visible(&l, rect(0, 9, 10, 3)), Some(1));
    assert_eq!(first_visible(&l, rect(50, 50, 10, 3)), None);
    assert_eq!(locate_area(rect(0, 0, 40, 4), rect(0, 10, 1, 1)), None);
    assert_eq!(locate_area(rect(0, 0, 40, 4), rect(1, 1, 1, 1)), Some(rect(1, 1, 1, 1)));
}

use rat_widget::shadow::{shadow_lines, CellLine, ShadowDirection};

#[test]
fn shadow_lines_per_direction() {
    let a = rect(2, 3, 4, 2);
    assert_eq!(
        shadow_lines(a, ShadowDirection::BottomRight),
        (
            Some(CellLine { at: 6, from: 4, to: 6 }),
            Some(CellLine { at: 5, from: 3, to: 6 })
        )
    );
    assert_eq!(
        shadow_lines(a, ShadowDirection::TopLeft),
        (
            Some(CellLine { at: 1, from: 2, to: 4 }),
            Some(CellLine { at: 2, from: 2, to: 5 })
        )
    );
    assert_eq!(shadow_lines(rect(0, 0, 4, 2), ShadowDirection::TopLeft), (None, None));
    assert_eq!(
        shadow_lines(rect(0, 0, 4, 2), ShadowDirection::BottomLeft),
        (None, Some(CellLine { at: 2, from: 0, to: 3 }))
    );
}

#[test]
fn page_navigation_layout_columns_and_marks() {
    let mut s = PageNavigationState::new();
    s.set_page_count(5);
    s.layout(rect(0, 0, 40, 5), rect(1, 1, 38, 3), 2, "<", ">", "|<", ">|");
    assert_eq!(s.widget_areas, vec![rect(1, 1, 19, 3), rect(20, 1, 19, 3)]);
    assert_eq!(s.prev_area, rect(1, 0, 2, 1));
    assert_eq!(s.next_area, rect(38, 0, 1, 1));
    s.set_page(4);
    s.layout(rect(0, 0, 40, 5), rect(1, 1, 38, 3), 2, "<", ">", "|<", "⇥⇥⇥");
    assert_eq!(s.prev_area, rect(1, 0, 1, 1));
    assert_eq!(s.next_area, rect(36, 0, 3, 1));
    assert_eq!(rat_widget::pager::layout_size(rect(1, 1, 38, 3), 3).width, 12);
}

use rat_widget::form::{locate_area as form_locate, navigation_areas, page_area, FormState};
use rat_widget::geometry::Size;

fn paged_layout() -> GenericLayout<u32, ()> {
    let mut l: GenericLayout<u32, ()> = GenericLayout::new();
    l.set_page_size(Size { width: 10, height: 5 });
    l.set_page_count(3);
    l.add(1, rect(0, 0, 10, 1), None, rect(0, 0, 0, 0));
    l.add(2, rect(0, 6, 10, 1), None, rect(0, 0, 0, 0));
    l.add(3, rect(0, 12, 10, 1), None, rect(0, 0, 0, 0));
    l
}

#[test]
fn form_pages() {
    let mut f: FormState<u32> = FormState::new();
    assert_eq!(f.page(), 0);
    assert!(!f.valid_layout(Size { width: 10, height: 5 }));
    f.set_layout(paged_layout());
    assert!(f.valid_layout(Size { width: 10, height: 5 }));
    assert!(!f.valid_layout(Size { width: 11, height: 5 }));
    assert_eq!(f.page_count(), 3);
    assert_eq!(f.page_of(3), Some(2));
    assert_eq!(f.page_of(9), None);
    assert_eq!(f.first(1), Some(2));
    assert_eq!(f.first(5), None);
    f.show(2);
    assert_eq!(f.page(), 1);
    assert!(f.next_page());
    assert!(!f.next_page());
    assert_eq!(f.page(), 2);
    f.show(42);
    assert_eq!(f.page(), 0);
    assert!(!f.prev_page());
    assert!(f.set_page(9));
    assert_eq!(f.page(), 2);
    assert!(f.prev_page());
    assert_eq!(f.page(), 1);
    f.clear();
    assert_eq!(f.page(), 0);
    assert_eq!(f.page_count(), 1);
}

#[test]
fn form_page_geometry() {
    assert_eq!(page_area(2, Size { width: 10, height: 5 }), rect(0, 10, 10, 5));
    assert_eq!(page_area(0, Size { width: 10, height: u16::MAX }), rect(0, 0, 10, u16::MAX));
    let (prev, next) = navigation_areas(rect(2, 1, 30, 10), 0, 3, false, "<", ">", "|<", ">|");
    assert_eq!(prev, rect(2, 1, 2, 1));
    assert_eq!(next, rect(31, 1, 1, 1));
    let (prev, next) = navigation_areas(rect(2, 1, 30, 10), 2, 3, false, "<", ">", "|<", ">|");
    assert_eq!(prev, rect(2, 1, 1, 1));
    assert_eq!(next, rect(30, 1, 2, 1));
    assert_eq!(
        navigation_areas(rect(2, 1, 30, 10), 0, 3, true, "<", ">", "|<", ">|"),
        (rect(0, 0, 0, 0), rect(0, 0, 0, 0))
    );
    // page 1 shows rows 5..10 of the layout in the widget area at (3, 4)
    let page = rect(0, 5, 10, 5);
    let widget = rect(3, 4, 10, 5);
    assert_eq!(form_locate(page, widget, rect(0, 6, 10, 1)), Some(rect(3, 5, 10, 1)));
    assert_eq!(form_locate(page, widget, rect(0, 4, 4, 3)), Some(rect(3, 4, 4, 2)));
    assert_eq!(form_locate(page, widget, rect(0, 12, 10, 1)), None);
}

use rat_widget::event::{KeyCode, KeyPress, MouseInput, MouseKind};
use rat_widget::form::FormOutcome;

fn form_mouse(kind: MouseKind, column: u16, row: u16) -> MouseInput {
    MouseInput { kind, column, row, shift: false, control: false, alt: false }
}

#[test]
fn form_events_turn_pages() {
    let mut f: FormState<u32> = FormState::new();
    f.set_layout(paged_layout());
    let alt_down = KeyPress { code: KeyCode::PageDown, shift: false, control: false, alt: true };
    let alt_up = KeyPress { code: KeyCode::PageUp, shift: false, control: false, alt: true };
    // without the focus keys do nothing
    assert_eq!(f.handle_key(alt_down), FormOutcome::Continue);
    assert_eq!(f.page(), 0);
    f.focused = true;
    assert_eq!(f.handle_key(alt_down), FormOutcome::Page);
    assert_eq!(f.page(), 1);
    assert_eq!(f.handle_key(KeyPress { alt: false, ..alt_down }), FormOutcome::Continue);
    assert_eq!(f.handle_key(alt_up), FormOutcome::Page);
    assert_eq!(f.handle_key(alt_up), FormOutcome::Continue);
    assert_eq!(f.page(), 0);
    f.area = rect(0, 0, 20, 8);
    f.prev_area = rect(0, 0, 1, 1);
    f.next_area = rect(19, 0, 1, 1);
    assert_eq!(f.handle_mouse(form_mouse(MouseKind::LeftDown, 0, 0), false), FormOutcome::Unchanged);
    assert_eq!(f.handle_mouse(form_mouse(MouseKind::LeftDown, 19, 0), false), FormOutcome::Page);
    assert_eq!(f.page(), 1);
    assert_eq!(f.handle_mouse(form_mouse(MouseKind::ScrollDown, 5, 5), false), FormOutcome::Page);
    assert_eq!(f.page(), 2);
    assert_eq!(f.handle_mouse(form_mouse(MouseKind::ScrollDown, 5, 5), false), FormOutcome::Continue);
    assert_eq!(f.handle_mouse(form_mouse(MouseKind::ScrollUp, 50, 50), false), FormOutcome::Continue);
    assert_eq!(f.handle_mouse(form_mouse(MouseKind::ScrollUp, 5, 5), false), FormOutcome::Page);
    assert_eq!(f.page(), 1);
    assert_eq!(f.handle_mouse(form_mouse(MouseKind::Other, 5, 5), true), FormOutcome::Changed);
    assert_eq!(f.handle_mouse(form_mouse(MouseKind::Other, 5, 5), false), FormOutcome::Continue);
    assert_eq!(f.page(), 1);
}

use rat_widget::pager::PagerOutcome;

#[test]
fn page_navigation_events() {
    let mut s = PageNavigationState::new();
    s.set_page_count(3);
    let alt_down = KeyPress { code: KeyCode::PageDown, shift: false, control: false, alt: true };
    let alt_up = KeyPress { code: KeyCode::PageUp, ..alt_down };
    assert_eq!(s.handle_key(alt_down), PagerOutcome::Continue);
    s.focused = true;
    assert_eq!(s.handle_key(alt_down), PagerOutcome::Page(1));
    assert_eq!(s.handle_key(alt_down), PagerOutcome::Page(2));
    assert_eq!(s.handle_key(alt_down), PagerOutcome::Continue);
    assert_eq!(s.handle_key(KeyPress { shift: true, ..alt_up }), PagerOutcome::Continue);
    assert_eq!(s.handle_key(alt_up), PagerOutcome::Page(1));
    s.area = rect(0, 0, 40, 10);
    s.prev_area = rect(0, 9, 2, 1);
    s.next_area = rect(38, 9, 2, 1);
    assert_eq!(s.handle_mouse(form_mouse(MouseKind::LeftDown, 1, 9), false), PagerOutcome::Page(0));
    assert_eq!(s.handle_mouse(form_mouse(MouseKind::LeftDown, 1, 9), false), PagerOutcome::Unchanged);
    assert_eq!(s.handle_mouse(form_mouse(MouseKind::LeftDown, 39, 9), false), PagerOutcome::Page(1));
    assert_eq!(s.handle_mouse(form_mouse(MouseKind::ScrollDown, 5, 5), false), PagerOutcome::Page(2));
    assert_eq!(s.handle_mouse(form_mouse(MouseKind::ScrollDown, 5, 5), false), PagerOutcome::Continue);
    assert_eq!(s.handle_mouse(form_mouse(MouseKind::ScrollUp, 50, 5), false), PagerOutcome::Continue);
    assert_eq!(s.handle_mouse(form_mouse(MouseKind::ScrollUp, 5, 5), false), PagerOutcome::Page(1));
    assert_eq!(s.handle_mouse(form_mouse(MouseKind::Other, 5, 5), true), PagerOutcome::Changed);
    assert_eq!(s.page(), 1);
}
