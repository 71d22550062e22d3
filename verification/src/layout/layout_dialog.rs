//!
//! Layout of a dialog: content above a row of buttons.
//!
use crate::geometry::{sat_sub, Constraint, Direction, Flex, Padding, Rect, Size};
use crate::layout::generic_layout::GenericLayout;
use crate::layout::solver::{is_split, solver_split, Layout};
use vstd::prelude::*;

verus! {

/// The parts of a dialog layout.
#[derive(Debug, PartialEq, Eq, Hash, Clone, Copy, Structural)]
pub enum DialogItem {
    /// Area inside the border.
    Inner,
    /// Area where dialog content can be rendered.
    Content,
    /// Button area
    Buttons,
    /// Area for the nth button.
    Button(usize),
}

/// The area inside the padding.
pub open spec fn dialog_inner(area: Rect, padding: Padding) -> Rect {
    Rect::spec_new(
        (area.x + padding.left) as u16,
        (area.y + padding.top) as u16,
        sat_sub(area.width, (padding.left + padding.right) as u16),
        sat_sub(area.height, (padding.top + padding.bottom) as u16),
    )
}

/// The key of the `i`-th part of a dialog layout.
pub open spec fn dialog_key(i: int) -> DialogItem {
    if i == 0 {
        DialogItem::Inner
    } else if i == 1 {
        DialogItem::Content
    } else if i == 2 {
        DialogItem::Buttons
    } else {
        DialogItem::Button((i - 3) as usize)
    }
}

/// `r` is the dialog layout for the area, with the padding inside its
/// border, the rows `rows` (content, an empty line, the button line) and
/// the button areas `buttons`: inner area, content, button line, then the
/// buttons, all without labels or blocks, on one page of the area's size.
pub open spec fn is_dialog_layout(
    r: GenericLayout<DialogItem, ()>,
    area: Rect,
    padding: Padding,
    rows: Seq<Rect>,
    buttons: Seq<Rect>,
) -> bool {
    let n = 3 + buttons.len();
    &&& r.wf()
    &&& r.area_view() == area
    &&& r.page_size_view() == (Size { width: area.width, height: area.height })
    &&& r.page_count_view() == 1
    &&& r.widget_areas() == seq![dialog_inner(area, padding), rows[0], rows[2]] + buttons
    &&& r.keys().len() == n
    &&& forall|i: int| 0 <= i < n ==> cloned(dialog_key(i), #[trigger] r.keys()[i])
    &&& r.labels() == Seq::new(n as nat, |i: int| None::<String>)
    &&& r.label_areas() == Seq::new(n as nat, |i: int| Rect::zero())
    &&& r.block_areas() == Seq::<Rect>::empty()
    &&& r.blocks() == Seq::<Option<()>>::empty()
}

/// `rows` split the area inside the padding from top to bottom into
/// content, an empty line and the button line, as the solver does it for
/// `Fill(1), Length(1), Length(1)`, and `buttons` split the button line
/// from left to right by the button constraints, with the spacing and the
/// flex.
pub open spec fn is_dialog_split(
    area: Rect,
    padding: Padding,
    button_constraints: Seq<Constraint>,
    spacing: u16,
    flex: Flex,
    rows: Seq<Rect>,
    buttons: Seq<Rect>,
) -> bool {
    &&& is_split(Direction::Vertical, dialog_inner(area, padding), 3, rows)
    &&& solver_split(
        Direction::Vertical,
        seq![Constraint::Fill(1), Constraint::Length(1), Constraint::Length(1)],
        0,
        Flex::Start,
        dialog_inner(area, padding),
        rows,
    )
    &&& is_split(Direction::Horizontal, rows[2], button_constraints.len() as int, buttons)
    &&& solver_split(Direction::Horizontal, button_constraints, spacing, flex, rows[2], buttons)
}

/// Calculates a layout for a dialog with buttons.
pub fn layout_dialog(
    area: Rect,
    padding: Padding,
    buttons: Vec<Constraint>,
    button_spacing: u16,
    button_flex: Flex,
) -> (r: GenericLayout<DialogItem, ()>)
    requires
        area.x + padding.left <= u16::MAX,
        area.y + padding.top <= u16::MAX,
        padding.left + padding.right <= u16::MAX,
        padding.top + padding.bottom <= u16::MAX,
    ensures
        exists|rows: Seq<Rect>, parts: Seq<Rect>|
            is_dialog_split(area, padding, buttons@, button_spacing, button_flex, rows, parts)
                && #[trigger] is_dialog_layout(
                r,
                area,
                padding,
                rows,
                parts,
            ),
{
    let inner = Rect::new(
        area.x + padding.left,
        area.y + padding.top,
        area.width.saturating_sub(padding.left + padding.right),
        area.height.saturating_sub(padding.top + padding.bottom),
    );

    let rows = vec![Constraint::Fill(1), Constraint::Length(1), Constraint::Length(1)];
    assert(rows@ =~= seq![Constraint::Fill(1), Constraint::Length(1), Constraint::Length(1)]);
    let l_content = Layout::vertical(rows).split(inner);
    let ghost bc = buttons@;
    let l_buttons = Layout::horizontal(buttons).spacing(button_spacing).flex(button_flex).split(
        l_content[2],
    );
    let r = dialog_from_parts(area, padding, &l_content, &l_buttons);
    assert(is_dialog_split(area, padding, bc, button_spacing, button_flex, l_content@, l_buttons@));
    r
}

/// The dialog layout for the area with the padding inside its border,
/// from the rows of the area inside the padding (content, an empty line,
/// the button line) and the areas of the buttons.
pub fn dialog_from_parts(area: Rect, padding: Padding, rows: &Vec<Rect>, buttons: &Vec<Rect>) -> (r: GenericLayout<DialogItem, ()>)
    requires
        rows@.len() == 3,
        area.x + padding.left <= u16::MAX,
        area.y + padding.top <= u16::MAX,
        padding.left + padding.right <= u16::MAX,
        padding.top + padding.bottom <= u16::MAX,
    ensures
        is_dialog_layout(r, area, padding, rows@, buttons@),
{
    let inner = Rect::new(
        area.x + padding.left,
        area.y + padding.top,
        area.width.saturating_sub(padding.left + padding.right),
        area.height.saturating_sub(padding.top + padding.bottom),
    );
    let l_content = rows;
    let l_buttons = buttons;
    let ghost bs = buttons@;
    let z = Rect { x: 0, y: 0, width: 0, height: 0 };
    assert(z == Rect::zero());
    let mut gen_layout: GenericLayout<DialogItem, ()> = GenericLayout::new();
    gen_layout.set_area(area);
    gen_layout.set_page_size(Size { width: area.width, height: area.height });
    gen_layout.set_page_count(1);

    gen_layout.add(DialogItem::Inner, inner, None, z);
    gen_layout.add(DialogItem::Content, l_content[0], None, z);
    gen_layout.add(DialogItem::Buttons, l_content[2], None, z);
    let ghost head = seq![inner, l_content[0], l_content[2]];
    assert(gen_layout.widget_areas() =~= head);
    let mut n: usize = 0;
    while n < l_buttons.len()
        invariant
            n <= l_buttons@.len(),
            l_buttons@.len() == bs.len(),
            z == Rect::zero(),
            gen_layout.wf(),
            gen_layout.area_view() == area,
            gen_layout.page_size_view() == (Size { width: area.width, height: area.height }),
            gen_layout.page_count_view() == 1,
            gen_layout.widget_areas() == head + l_buttons@.take(n as int),
            gen_layout.keys().len() == 3 + n,
            forall|i: int| 0 <= i < 3 + n ==> cloned(dialog_key(i), #[trigger] gen_layout.keys()[i]),
            gen_layout.labels() == Seq::new((3 + n) as nat, |i: int| None::<String>),
            gen_layout.label_areas() == Seq::new((3 + n) as nat, |i: int| Rect::zero()),
            gen_layout.block_areas() == Seq::<Rect>::empty(),
            gen_layout.blocks() == Seq::<Option<()>>::empty(),
        decreases l_buttons@.len() - n,
    {
        let ghost before = gen_layout.keys();
        gen_layout.add(DialogItem::Button(n), l_buttons[n], None, z);
        assert(l_buttons@.take(n + 1) =~= l_buttons@.take(n as int).push(l_buttons@[n as int]));
        assert forall|i: int| 0 <= i < 3 + n + 1 implies cloned(
            dialog_key(i),
            #[trigger] gen_layout.keys()[i],
        ) by {
            if i < 3 + n {
                assert(gen_layout.keys()[i] == gen_layout.keys().drop_last()[i]);
                assert(before[i] == gen_layout.keys()[i]);
            }
        }
        assert(gen_layout.labels() =~= Seq::new((3 + n + 1) as nat, |i: int| None::<String>));
        assert(gen_layout.label_areas() =~= Seq::new((3 + n + 1) as nat, |i: int| Rect::zero()));
        n = n + 1;
    }
    assert(l_buttons@.take(n as int) =~= l_buttons@);
    gen_layout
}

} // verus!
