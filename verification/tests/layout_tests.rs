use rat_widget::geometry::{Flex, Padding, Position, Rect, Size};
use rat_widget::layout::generic_layout::GenericLayout;
use rat_widget::layout::layout_edit::{layout_edit, EditConstraint};
use rat_widget::layout::layout_form::{blocks_squeezed, BlockTag, FormLabel, FormWidget, LayoutForm};

fn rect(x: u16, y: u16, width: u16, height: u16) -> Rect {
    Rect { x, y, width, height }
}

#[test]
fn generic_layout_add_and_find() {
    let mut l: GenericLayout<u32, ()> = GenericLayout::new();
    assert!(l.is_empty());
    l.add(7, rect(5, 1, 10, 1), Some("Seven".to_string()), rect(0, 1, 4, 1));
    l.add(9, rect(5, 2, 10, 1), None, rect(0, 2, 4, 1));
    assert_eq!(l.widget_len(), 2);
    assert_eq!(l.widget_for(9), rect(5, 2, 10, 1));
    assert_eq!(l.label_for(7), rect(0, 1, 4, 1));
    assert_eq!(l.label_str_for(7), "Seven");
    assert_eq!(l.label_str_for(9), "");
    assert_eq!(l.try_index_of(9), Some(1));
    assert_eq!(l.try_index_of(8), None);
    let placed = l.place(Position::new(10, 20));
    assert_eq!(placed.widget_for(7), rect(15, 21, 10, 1));
    assert_eq!(placed.label_for(9), rect(10, 22, 4, 1));
}

#[test]
fn layout_edit_rows() {
    let cs = vec![
        EditConstraint::Label("Name".to_string()),
        EditConstraint::Widget(10),
        EditConstraint::Label("Street".to_string()),
        EditConstraint::WidgetRows(20, 2),
    ];
    let l: GenericLayout<usize, ()> = layout_edit(Size::new(40, 10), &cs, 1, Flex::Start);
    assert_eq!(l.widget_len(), 2);
    assert_eq!(l.widget(0), rect(7, 0, 10, 1));
    assert_eq!(l.label(0), rect(0, 0, 6, 1));
    assert_eq!(l.label_str(0), "Name");
    assert_eq!(l.widget(1), rect(7, 1, 20, 2));
    assert_eq!(l.label(1), rect(0, 1, 6, 1));
    assert_eq!(l.label_str(1), "Street");
}

#[test]
fn form_endless() {
    let mut f: LayoutForm<u32, ()> = LayoutForm::new();
    f.widget(1, FormLabel::Width(5), FormWidget::Width(10));
    f.widget(2, FormLabel::Width(3), FormWidget::Size(10, 2));
    let l = f.build_endless(40);
    assert_eq!(l.page_count(), 1);
    assert_eq!(l.page_size(), Size::new(40, u16::MAX));
    assert_eq!(l.widget_for(1), rect(6, 0, 10, 1));
    assert_eq!(l.label_for(1), rect(0, 0, 5, 1));
    assert_eq!(l.widget_for(2), rect(6, 1, 10, 2));
    assert_eq!(l.label_for(2), rect(0, 1, 5, 1));
}

#[test]
fn form_label_by_example() {
    let mut f: LayoutForm<u32, ()> = LayoutForm::new();
    f.widget(1, FormLabel::Str("Name"), FormWidget::Width(8));
    f.widget(2, FormLabel::String("Street".to_string()), FormWidget::Width(8));
    assert_eq!(f.max_label, 6);
    let l = f.build_endless(30);
    assert_eq!(l.label_str_for(1), "Name");
    assert_eq!(l.label_str_for(2), "Street");
    assert_eq!(l.label_for(2), rect(0, 1, 6, 1));
    assert_eq!(l.widget_for(2), rect(7, 1, 8, 1));
}

#[test]
fn form_paged_breaks_page() {
    let mut f: LayoutForm<u32, ()> = LayoutForm::new();
    f.widget(1, FormLabel::Width(5), FormWidget::Width(10));
    f.widget(2, FormLabel::Width(3), FormWidget::Size(10, 2));
    let l = f.build_paged(Size::new(40, 2));
    assert_eq!(l.page_count(), 2);
    assert_eq!(l.widget_for(1), rect(6, 0, 10, 1));
    assert_eq!(l.widget_for(2), rect(6, 2, 10, 2));
    assert_eq!(l.label_for(2), rect(0, 2, 5, 1));
}

#[test]
fn form_manual_page_break() {
    let mut f: LayoutForm<u32, ()> = LayoutForm::new();
    f.widget(1, FormLabel::Width(5), FormWidget::Width(10));
    f.page_break();
    f.widget(2, FormLabel::Width(5), FormWidget::Width(10));
    let l = f.build_paged(Size::new(40, 10));
    assert_eq!(l.page_count(), 2);
    assert_eq!(l.widget_for(2), rect(6, 10, 10, 1));
}

#[test]
fn form_line_spacing_and_border() {
    let mut f: LayoutForm<u32, ()> = LayoutForm::new()
        .line_spacing(1)
        .border(Padding::new(2, 2, 1, 1));
    f.widget(1, FormLabel::Width(4), FormWidget::Width(6));
    f.widget(2, FormLabel::Width(4), FormWidget::Width(6));
    let l = f.build_endless(30);
    assert_eq!(l.label_for(1), rect(2, 1, 4, 1));
    assert_eq!(l.widget_for(1), rect(7, 1, 6, 1));
    assert_eq!(l.widget_for(2), rect(7, 3, 6, 1));
}

#[test]
fn form_blocks() {
    let mut f: LayoutForm<u32, &'static str> = LayoutForm::new();
    let tag = f.start(Some("group"), Padding::new(1, 1, 1, 1));
    assert_eq!(tag, BlockTag(0));
    f.widget(1, FormLabel::Width(4), FormWidget::Width(6));
    f.end(tag);
    f.widget(2, FormLabel::Width(4), FormWidget::Width(6));
    assert_eq!(f.max_left_padding, 1);
    assert_eq!(f.left_padding, 0);
    let l = f.build_endless(30);
    // the block surrounds the first widget
    assert_eq!(l.block_len(), 1);
    assert_eq!(l.block_area(0), rect(0, 0, 13, 3));
    assert_eq!(l.block(0), &Some("group"));
    assert_eq!(l.label_for(1), rect(1, 1, 4, 1));
    assert_eq!(l.widget_for(1), rect(6, 1, 6, 1));
    assert_eq!(l.widget_for(2), rect(6, 3, 6, 1));
}

#[test]
fn form_stretch_y_takes_the_rest_of_the_page() {
    let mut f: LayoutForm<u32, ()> = LayoutForm::new();
    f.widget(1, FormLabel::Width(4), FormWidget::Width(6));
    f.widget(2, FormLabel::Width(4), FormWidget::StretchY(6, 2));
    f.widget(3, FormLabel::Width(4), FormWidget::Width(6));
    let l = f.build_paged(Size::new(30, 10));
    assert_eq!(l.widget_for(2), rect(5, 1, 6, 8));
    assert_eq!(l.widget_for(3), rect(5, 9, 6, 1));
    assert_eq!(l.label_for(3), rect(0, 9, 4, 1));
}

#[test]
fn form_widget_flags() {
    assert!(FormWidget::StretchXY(1, 1).is_stretch_y());
    assert!(FormWidget::WideStretchXY(1, 1).is_stretch_y());
    assert!(FormWidget::StretchY(1, 1).is_stretch_y());
    assert!(!FormWidget::Wide(1, 1).is_stretch_y());
    assert!(!FormWidget::Empty.is_stretch_y());
    assert!(blocks_squeezed(2));
    assert!(!blocks_squeezed(3));
    assert!(!blocks_squeezed(u16::MAX));
}
