//!
//! Calculate the layout for an edit-mask with lots of label/widget pairs.
//!
use crate::geometry::{max_u16, min_u16, Flex, Rect, Size};
use crate::layout::generic_layout::GenericLayout;
use crate::layout::shrink::{shrink, shrink_spec};
use vstd::prelude::*;
use vstd::std_specs::hash::obeys_key_model;
use vstd::utf8::encode_utf8;

verus! {

broadcast use vstd::std_specs::hash::group_hash_axioms;

/// Constraint data for [layout_edit]
#[derive(Debug, Clone)]
pub enum EditConstraint {
    /// Label by sample.
    Label(String),
    /// Label by width. __unit: cols__
    LabelWidth(u16),
    /// Label by height+width. __unit: cols, rows__
    LabelRows(u16, u16),
    /// Label occupying the full row. This is added with its own index.
    TitleLabel(String),
    /// Label occupying the full row, but rendering only part of it.
    /// This is added with its own index. __unit: cols__
    TitleLabelWidth(u16),
    /// Label occupying multiple full rows. This is added with its own
    /// index. __unit: rows__
    TitleLabelRows(u16),
    /// Widget aligned with the label. __unit: cols__
    Widget(u16),
    /// Widget aligned with the label. __unit: cols, rows__
    WidgetRows(u16, u16),
    /// Empty space. This is not a widget, just some spacing.
    Empty,
    /// Empty space. This is not a widget, just some spacing.
    /// __unit: rows__
    EmptyRows(u16),
    /// Widget aligned with the left margin. __unit: cols__
    LineWidget(u16),
    /// Widget aligned with the left margin. __unit: cols, rows__
    LineWidgetRows(u16, u16),
}

/// Width that a constraint asks for the label column.
pub open spec fn label_width_of(c: EditConstraint) -> u16 {
    match c {
        EditConstraint::Label(s) => (encode_utf8(s@).len() as usize) as u16,
        EditConstraint::LabelWidth(w) => w,
        EditConstraint::LabelRows(w, _) => w,
        _ => 0,
    }
}

/// Width that a constraint asks for the widget column.
pub open spec fn widget_width_of(c: EditConstraint) -> u16 {
    match c {
        EditConstraint::Widget(w) => w,
        EditConstraint::WidgetRows(w, _) => w,
        _ => 0,
    }
}

/// Widest label of the first `k` constraints.
pub open spec fn max_label_of(cs: Seq<EditConstraint>, k: int) -> u16
    decreases k,
{
    if k <= 0 { 0 } else { max_u16(max_label_of(cs, k - 1), label_width_of(cs[k - 1])) }
}

/// Widest widget of the first `k` constraints.
pub open spec fn max_widget_of(cs: Seq<EditConstraint>, k: int) -> u16
    decreases k,
{
    if k <= 0 { 0 } else { max_u16(max_widget_of(cs, k - 1), widget_width_of(cs[k - 1])) }
}

/// Columns of the edit mask: label x, widget x, label width, widget
/// width, total width of label + spacing + widget.
pub open spec fn edit_columns(area: Size, max_label: u16, spacing: u16, max_widget: u16, flex: Flex) -> (u16, u16, u16, u16, u16) {
    let (ml, sp, mw) = if max_label + spacing + max_widget > area.width {
        shrink_spec(max_label, spacing, max_widget, (max_label + spacing + max_widget - area.width) as u16)
    } else {
        (max_label, spacing, max_widget)
    };
    let (label_x, widget_x) = match flex {
        Flex::Legacy | Flex::Start => (0int, sp + ml),
        Flex::End => ((area.width - mw) - sp - ml, area.width - mw),
        Flex::Center | Flex::SpaceAround | Flex::SpaceEvenly => {
            let rest = area.width - ml - mw - sp;
            (rest / 2, rest / 2 + sp + ml)
        },
        Flex::SpaceBetween => {
            let rest = area.width - ml - mw;
            (rest / 3, rest / 3 + rest / 3 + ml)
        },
    };
    (label_x as u16, widget_x as u16, ml, mw, (ml + sp + mw) as u16)
}

/// State while going through the constraints: y, remaining height,
/// pending label area, pending label text, and the widget areas,
/// labels and label areas added so far.
pub type EditState = (u16, u16, Rect, Option<String>, Seq<Rect>, Seq<Option<String>>, Seq<Rect>);

/// The state after one constraint.
pub open spec fn edit_step(c: EditConstraint, cols: (u16, u16, u16, u16, u16), st: EditState) -> EditState {
    let (label_x, widget_x, max_label, max_widget, total) = cols;
    let (y, rest, label_area, label_text, areas, labels, label_areas) = st;
    let zero = Rect::zero();
    // (height, new label area, new label text, added item)
    let (height, la, lt, item): (u16, Rect, Option<String>, Option<(Rect, Option<String>, Rect)>) = match c {
        EditConstraint::Label(s) => (0u16, Rect::spec_new(label_x, y, max_label, min_u16(1, rest)), Some(s), None),
        EditConstraint::LabelWidth(_) => (0u16, Rect::spec_new(label_x, y, max_label, min_u16(1, rest)), None, None),
        EditConstraint::LabelRows(_, h) => (0u16, Rect::spec_new(label_x, y, max_label, min_u16(1, min_u16(h, rest))), None, None),
        EditConstraint::TitleLabel(s) => {
            let h = min_u16(1, rest);
            (h, zero, None, Some((zero, Some(s), Rect::spec_new(label_x, y, total, h))))
        },
        EditConstraint::TitleLabelWidth(w) => {
            let h = min_u16(1, rest);
            (h, zero, None, Some((zero, None, Rect::spec_new(label_x, y, min_u16(w, max_label), h))))
        },
        EditConstraint::TitleLabelRows(hh) => {
            let h = min_u16(hh, rest);
            (h, zero, None, Some((zero, None, Rect::spec_new(label_x, y, total, h))))
        },
        EditConstraint::Widget(w) => {
            let wh = min_u16(1, rest);
            (max_u16(label_area.height, wh), zero, None,
                Some((Rect::spec_new(widget_x, y, min_u16(w, max_widget), wh), label_text, label_area)))
        },
        EditConstraint::WidgetRows(w, hh) => {
            let wh = min_u16(hh, rest);
            (max_u16(label_area.height, wh), zero, None,
                Some((Rect::spec_new(widget_x, y, min_u16(w, max_widget), wh), label_text, label_area)))
        },
        EditConstraint::LineWidget(w) => {
            let h = min_u16(1, rest);
            (h, zero, None, Some((Rect::spec_new(label_x, y, min_u16(w, total), h), label_text, label_area)))
        },
        EditConstraint::LineWidgetRows(w, hh) => {
            let h = min_u16(hh, rest);
            (h, zero, None, Some((Rect::spec_new(label_x, y, min_u16(w, total), h), label_text, label_area)))
        },
        EditConstraint::Empty => (min_u16(1, rest), zero, None, None),
        EditConstraint::EmptyRows(hh) => (min_u16(hh, rest), zero, None, None),
    };
    let (areas, labels, label_areas) = match item {
        Some((a, l, la2)) => (areas.push(a), labels.push(l), label_areas.push(la2)),
        None => (areas, labels, label_areas),
    };
    ((y + height) as u16, (rest - height) as u16, la, lt, areas, labels, label_areas)
}

/// The state after the first `k` constraints.
pub open spec fn edit_fold(cs: Seq<EditConstraint>, cols: (u16, u16, u16, u16, u16), height: u16, k: int) -> EditState
    decreases k,
{
    if k <= 0 {
        (0u16, if height > 0 { (height - 1) as u16 } else { 0u16 }, Rect::zero(), None, Seq::empty(), Seq::empty(), Seq::empty())
    } else {
        edit_step(cs[k - 1], cols, edit_fold(cs, cols, height, k - 1))
    }
}

/// The rows of an edit mask fit on top of each other.
pub open spec fn edit_state_ok(st: EditState, height: u16) -> bool {
    let (y, rest, label_area, _, _, _, _) = st;
    &&& y + rest == (if height > 0 { height - 1 } else { 0 })
    &&& label_area.height <= rest
}

proof fn lemma_edit_fold_ok(cs: Seq<EditConstraint>, cols: (u16, u16, u16, u16, u16), height: u16, k: int)
    requires
        0 <= k <= cs.len(),
    ensures
        edit_state_ok(edit_fold(cs, cols, height, k), height),
    decreases k,
{
    if k > 0 {
        lemma_edit_fold_ok(cs, cols, height, k - 1);
    }
}

/// Layout for an edit mask with lots of label+widget pairs.
///
/// This aligns labels and widgets in one column. Each widget, title
/// label and line widget gets the next index as its key. If the space
/// runs out during layout, everything gets stuffed into the last row.
pub fn layout_edit<B>(area: Size, constraints: &[EditConstraint], spacing: u16, flex: Flex) -> (r: GenericLayout<usize, B>)
    requires
        max_label_of(constraints@, constraints@.len() as int) + spacing
            + max_widget_of(constraints@, constraints@.len() as int) <= u16::MAX,
    ensures
        r.wf(),
        r.area_view() == Rect::zero(),
        r.page_size_view() == (Size { width: u16::MAX, height: u16::MAX }),
        r.page_count_view() == 1,
        r.block_areas() == Seq::<Rect>::empty(),
        ({
            let cols = edit_columns(area, max_label_of(constraints@, constraints@.len() as int), spacing,
                max_widget_of(constraints@, constraints@.len() as int), flex);
            let st = edit_fold(constraints@, cols, area.height, constraints@.len() as int);
            &&& r.widget_areas() == st.4
            &&& r.labels() == st.5
            &&& r.label_areas() == st.6
            &&& r.keys() == Seq::new(st.4.len(), |i: int| i as usize)
            &&& r.key_map() == Map::new(|i: usize| i < st.4.len(), |i: usize| i)
        }),
{
    let ghost cs = constraints@;
    let len = constraints.len();
    let mut max_label: u16 = 0;
    let mut max_widget: u16 = 0;
    let mut i: usize = 0;
    while i < len
        invariant
            len == cs.len(),
            cs == constraints@,
            i <= len,
            max_label == max_label_of(cs, i as int),
            max_widget == max_widget_of(cs, i as int),
        decreases len - i,
    {
        match &constraints[i] {
            EditConstraint::Label(s) => {
                let w = s.as_str().len() as u16;
                max_label = if max_label >= w { max_label } else { w };
            },
            EditConstraint::LabelWidth(w) => {
                max_label = if max_label >= *w { max_label } else { *w };
            },
            EditConstraint::LabelRows(w, _) => {
                max_label = if max_label >= *w { max_label } else { *w };
            },
            EditConstraint::Widget(w) => {
                max_widget = if max_widget >= *w { max_widget } else { *w };
            },
            EditConstraint::WidgetRows(w, _) => {
                max_widget = if max_widget >= *w { max_widget } else { *w };
            },
            _ => {},
        }
        i += 1;
    }

    let mut gen_layout: GenericLayout<usize, B> = GenericLayout::new();

    // cut excess
    let ghost spacing0 = spacing;
    let mut spacing = spacing;
    if max_label + spacing + max_widget > area.width {
        let reduce = max_label + spacing + max_widget - area.width;
        let (l, s, w) = shrink(max_label, spacing, max_widget, reduce);
        max_label = l;
        spacing = s;
        max_widget = w;
    }

    let label_x: u16;
    let widget_x: u16;
    match flex {
        Flex::Legacy => {
            label_x = 0;
            widget_x = label_x + spacing + max_label;
        },
        Flex::Start => {
            label_x = 0;
            widget_x = label_x + spacing + max_label;
        },
        Flex::End => {
            widget_x = area.width - max_widget;
            label_x = widget_x - spacing - max_label;
        },
        Flex::Center => {
            let rest = area.width - max_label - max_widget - spacing;
            label_x = rest / 2;
            widget_x = label_x + spacing + max_label;
        },
        Flex::SpaceAround | Flex::SpaceEvenly => {
            let rest = area.width - max_label - max_widget - spacing;
            label_x = rest / 2;
            widget_x = label_x + spacing + max_label;
        },
        Flex::SpaceBetween => {
            let rest = area.width - max_label - max_widget;
            label_x = rest / 3;
            widget_x = label_x + rest / 3 + max_label;
        },
    }
    let total = max_label + spacing + max_widget;
    let ghost cols = (label_x, widget_x, max_label, max_widget, total);
    assert(cols == edit_columns(area, max_label_of(cs, cs.len() as int), spacing0,
        max_widget_of(cs, cs.len() as int), flex));

    let mut n: usize = 0;
    let mut y: u16 = 0;
    let mut label_area = Rect { x: 0, y: 0, width: 0, height: 0 };
    let mut label_text: Option<String> = None;
    let mut rest_height: u16 = if area.height > 0 { area.height - 1 } else { 0 };

    let mut i: usize = 0;
    while i < len
        invariant
            len == cs.len(),
            cs == constraints@,
            i <= len,
            gen_layout.wf(),
            gen_layout.area_view() == Rect::zero(),
            gen_layout.page_size_view() == (Size { width: u16::MAX, height: u16::MAX }),
            gen_layout.page_count_view() == 1,
            gen_layout.block_areas() == Seq::<Rect>::empty(),
            cols == (label_x, widget_x, max_label, max_widget, total),
            ({
                let st = edit_fold(cs, cols, area.height, i as int);
                &&& y == st.0
                &&& rest_height == st.1
                &&& label_area == st.2
                &&& label_text == st.3
                &&& gen_layout.widget_areas() == st.4
                &&& gen_layout.labels() == st.5
                &&& gen_layout.label_areas() == st.6
            }),
            n == gen_layout.widget_areas().len(),
            n <= i,
            gen_layout.keys() == Seq::new(n as nat, |j: int| j as usize),
            gen_layout.key_map() == Map::new(|j: usize| j < n, |j: usize| j),
        decreases len - i,
    {
        proof {
            lemma_edit_fold_ok(cs, cols, area.height, i as int);
        }
        let ghost keys0 = gen_layout.keys();
        let ghost map0 = gen_layout.key_map();
        let height: u16;
        let mut added = false;
        match &constraints[i] {
            EditConstraint::Label(s) => {
                height = 0;
                label_area = Rect::new(label_x, y, max_label, if rest_height < 1 { rest_height } else { 1 });
                label_text = Some(s.clone());
            },
            EditConstraint::LabelWidth(_) => {
                height = 0;
                label_area = Rect::new(label_x, y, max_label, if rest_height < 1 { rest_height } else { 1 });
                label_text = None;
            },
            EditConstraint::LabelRows(_, h) => {
                height = 0;
                let hh = if *h < rest_height { *h } else { rest_height };
                label_area = Rect::new(label_x, y, max_label, if hh < 1 { hh } else { 1 });
                label_text = None;
            },
            EditConstraint::TitleLabel(s) => {
                height = if rest_height < 1 { rest_height } else { 1 };
                let la = Rect::new(label_x, y, total, height);
                gen_layout.add(n, Rect { x: 0, y: 0, width: 0, height: 0 }, Some(s.clone()), la);
                added = true;
                label_area = Rect { x: 0, y: 0, width: 0, height: 0 };
                label_text = None;
            },
            EditConstraint::TitleLabelWidth(w) => {
                height = if rest_height < 1 { rest_height } else { 1 };
                let la = Rect::new(label_x, y, if *w < max_label { *w } else { max_label }, height);
                gen_layout.add(n, Rect { x: 0, y: 0, width: 0, height: 0 }, None, la);
                added = true;
                label_area = Rect { x: 0, y: 0, width: 0, height: 0 };
                label_text = None;
            },
            EditConstraint::TitleLabelRows(h) => {
                height = if *h < rest_height { *h } else { rest_height };
                let la = Rect::new(label_x, y, total, height);
                gen_layout.add(n, Rect { x: 0, y: 0, width: 0, height: 0 }, None, la);
                added = true;
                label_area = Rect { x: 0, y: 0, width: 0, height: 0 };
                label_text = None;
            },
            EditConstraint::Widget(w) => {
                let w_height = if rest_height < 1 { rest_height } else { 1 };
                height = if label_area.height >= w_height { label_area.height } else { w_height };
                let a = Rect::new(widget_x, y, if *w < max_widget { *w } else { max_widget }, w_height);
                let lt = label_text.take();
                gen_layout.add(n, a, lt, label_area);
                added = true;
                label_area = Rect { x: 0, y: 0, width: 0, height: 0 };
            },
            EditConstraint::WidgetRows(w, h) => {
                let w_height = if *h < rest_height { *h } else { rest_height };
                height = if label_area.height >= w_height { label_area.height } else { w_height };
                let a = Rect::new(widget_x, y, if *w < max_widget { *w } else { max_widget }, w_height);
                let lt = label_text.take();
                gen_layout.add(n, a, lt, label_area);
                added = true;
                label_area = Rect { x: 0, y: 0, width: 0, height: 0 };
            },
            EditConstraint::LineWidget(w) => {
                height = if rest_height < 1 { rest_height } else { 1 };
                let a = Rect::new(label_x, y, if *w < total { *w } else { total }, height);
                let lt = label_text.take();
                gen_layout.add(n, a, lt, label_area);
                added = true;
                label_area = Rect { x: 0, y: 0, width: 0, height: 0 };
            },
            EditConstraint::LineWidgetRows(w, h) => {
                height = if *h < rest_height { *h } else { rest_height };
                let a = Rect::new(label_x, y, if *w < total { *w } else { total }, height);
                let lt = label_text.take();
                gen_layout.add(n, a, lt, label_area);
                added = true;
                label_area = Rect { x: 0, y: 0, width: 0, height: 0 };
            },
            EditConstraint::Empty => {
                height = if rest_height < 1 { rest_height } else { 1 };
                label_text = None;
                label_area = Rect { x: 0, y: 0, width: 0, height: 0 };
            },
            EditConstraint::EmptyRows(h) => {
                height = if *h < rest_height { *h } else { rest_height };
                label_text = None;
                label_area = Rect { x: 0, y: 0, width: 0, height: 0 };
            },
        }
        proof {
            if added {
                assert(gen_layout.keys().drop_last() == keys0);
                assert(gen_layout.keys()[n as int] == n);
                assert forall|j: int| 0 <= j < n implies gen_layout.keys()[j] == keys0[j] by {
                    assert(gen_layout.keys().drop_last()[j] == gen_layout.keys()[j]);
                }
                assert(keys0 == Seq::new(n as nat, |j: int| j as usize));
                assert forall|j: int| 0 <= j < n + 1 implies gen_layout.keys()[j] == j as usize by {
                    if j < n {
                        assert(keys0[j] == j as usize);
                    }
                }
                assert(gen_layout.keys() =~= Seq::new((n + 1) as nat, |j: int| j as usize));
                assert(gen_layout.key_map() =~= Map::new(|j: usize| j < n + 1, |j: usize| j));
            }
        }
        if added {
            n += 1;
        }
        y = y + height;
        rest_height = rest_height - height;
        i += 1;
    }
    gen_layout
}

} // verus!
