use rat_widget::geometry::Rect;
use rat_widget::checkbox::checkbox_width;
use rat_widget::list::rows::{list_rows, row_area};
use rat_widget::combobox::ComboboxOutcome;
use rat_widget::dialog_frame::DialogOutcome;
use rat_widget::event::Outcome;
use rat_widget::file_dialog::FileOutcome;
use rat_widget::form::FormOutcome;
use rat_widget::hover::Hover;
use rat_widget::list::selection::{NoSelection, RowSelection, RowSetSelection};
use rat_widget::list::ListSelection;
use rat_widget::pager::PagerOutcome;
use rat_widget::paired::{PairedState, PairedWidget};
use rat_widget::range_op::RangeOp;
use rat_widget::shadow::ShadowDirection;
use rat_widget::text::{to_ascii_lowercase, utf8_len};
use std::path::PathBuf;

#[test]
fn range_op_unsigned() {
    assert_eq!(250u8.add_clamp(10, (0, 255)), 255);
    assert_eq!(5u8.add_clamp(10, (0, 12)), 12);
    assert_eq!(5u8.sub_clamp(10, (0, 100)), 0);
    assert_eq!(50u16.sub_clamp(10, (45, 100)), 45);
    assert_eq!(7usize.add_clamp(3, (0, 100)), 10);
}

#[test]
fn range_op_signed() {
    assert_eq!((-100i8).add_clamp(200u8, (-128, 127)), 100);
    assert_eq!(i8::MIN.sub_clamp(5u8, (-128, 127)), -128);
    assert_eq!(20i8.sub_clamp(10u8, (15, 100)), 15);
    assert_eq!(100i8.add_clamp(255u8, (-128, 127)), 127);
    assert_eq!(0i32.sub_clamp(u32::MAX, (i32::MIN, i32::MAX)), i32::MIN);
}

#[test]
fn outcomes_consumed() {
    assert!(!ComboboxOutcome::Continue.is_consumed());
    assert!(ComboboxOutcome::TextChanged.is_consumed());
    assert_eq!(Outcome::from(ComboboxOutcome::TextChanged), Outcome::Changed);
    assert_eq!(ComboboxOutcome::from(Outcome::Unchanged), ComboboxOutcome::Unchanged);

    assert!(DialogOutcome::Okay.is_consumed());
    assert_eq!(Outcome::from(DialogOutcome::Cancel), Outcome::Changed);
    assert_eq!(DialogOutcome::from(Outcome::Continue), DialogOutcome::Continue);

    assert!(FormOutcome::Page.is_consumed());
    assert_eq!(Outcome::from(FormOutcome::Page), Outcome::Changed);

    assert_eq!(PagerOutcome::from(true), PagerOutcome::Changed);
    assert_eq!(PagerOutcome::from(false), PagerOutcome::Unchanged);
    assert_eq!(Outcome::from(PagerOutcome::Page(3)), Outcome::Changed);
    assert!(PagerOutcome::Page(0).is_consumed());

    let ok = FileOutcome::Okay(PathBuf::from("/tmp/x"));
    assert!(ok.is_consumed());
    assert_eq!(Outcome::from(ok), Outcome::Changed);
    assert_eq!(FileOutcome::from(true), FileOutcome::Changed);
    assert!(!FileOutcome::Continue.is_consumed());
}

#[test]
fn list_selections() {
    let n = NoSelection;
    assert_eq!(n.count(), 0);
    assert!(!n.is_selected(0));

    let r = RowSelection { lead_row: Some(3), scroll_selected: true };
    assert_eq!(r.count(), 1);
    assert!(r.is_selected(3));
    assert!(!r.is_selected(2));
    assert_eq!(r.lead_selection(), Some(3));
    assert!(r.scroll_selected());

    let mut s = RowSetSelection::default();
    s.anchor_row = Some(5);
    s.lead_row = Some(2);
    s.selected.insert(9);
    assert_eq!(s.count(), 5);
    assert!(s.is_selected(2));
    assert!(s.is_selected(4));
    assert!(s.is_selected(9));
    assert!(!s.is_selected(6));
    s.anchor_row = None;
    assert!(s.is_selected(2));
    assert!(!s.is_selected(3));
}

#[test]
fn paired_and_small_types() {
    let mut a = 1u8;
    let mut b = 'x';
    let p = PairedState::new(&mut a, &mut b);
    *p.first += 1;
    assert_eq!(*p.second, 'x');
    assert_eq!(a, 2);
    let w = PairedWidget::new("label");
    assert_eq!(w.into_inner(), "label");
    let _ = Hover::new();
    assert_eq!(ShadowDirection::default(), ShadowDirection::BottomRight);
}

#[test]
fn text_helpers() {
    assert_eq!(utf8_len('a'), 1);
    assert_eq!(utf8_len('ö'), 2);
    assert_eq!(utf8_len('€'), 3);
    assert_eq!(utf8_len('🛡'), 4);
    assert_eq!(to_ascii_lowercase('Q'), 'q');
    assert_eq!(to_ascii_lowercase('Ä'), 'Ä');
    assert_eq!(to_ascii_lowercase('1'), '1');
}

#[test]
fn list_rows_stack_from_the_offset() {
    let inner = Rect::new(2, 1, 10, 5);
    let (rows, page_len, max_offset) = list_rows(inner, &vec![1, 2, 1, 3, 1], 1);
    assert_eq!(rows, vec![Rect::new(2, 1, 10, 2), Rect::new(2, 3, 10, 1), Rect::new(2, 4, 10, 3)]);
    assert_eq!(page_len, 3);
    assert_eq!(max_offset, 2);
    assert_eq!(row_area(&rows, 1, page_len, 2), Some(Rect::new(2, 3, 10, 1)));
    assert_eq!(row_area(&rows, 1, page_len, 0), None);
    assert_eq!(row_area(&rows, 1, page_len, 4), None);
    // short lists leave lines free
    let (rows, page_len, max_offset) = list_rows(inner, &vec![1, 1], 0);
    assert_eq!(rows.len(), 2);
    assert_eq!(page_len, 5);
    assert_eq!(max_offset, 0);
    let (rows, page_len, _) = list_rows(inner, &vec![1, 1], 5);
    assert!(rows.is_empty());
    assert_eq!(page_len, 5);
}

#[test]
fn checkbox_inherent_width() {
    assert_eq!(checkbox_width(3, 5, 2), 11);
    assert_eq!(checkbox_width(3, 70000, 2), 4470);
}
