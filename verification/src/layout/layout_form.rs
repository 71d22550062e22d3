//!
//! Layout of a form: a column of label + widget pairs, optionally grouped
//! in blocks, broken into pages or laid out endlessly.
//!
use crate::geometry::{max_u16, min_u16, sat_add, sat_sub, Flex, Padding, Rect, Size};
use crate::layout::shrink::{shrink, shrink_spec};
use crate::layout::generic_layout::GenericLayout;
use crate::text::{display_width, text_width};
use std::hash::Hash;
use vstd::prelude::*;

verus! {

/// Label constraints for [LayoutForm].
///
/// Any given widths and heights will be reduced if there is not enough space.
#[derive(Debug, Default, Clone)]
pub enum FormLabel {
    /// No label, just the widget.
    #[default]
    Empty,
    /// Label by example.
    /// Line breaks in the text don't work.
    ///
    /// Will create a label area with the max width of all labels and a height of 1.
    /// The area will be top aligned with the widget.
    Str(&'static str),
    /// Label by example.
    /// Line breaks in the text don't work.
    ///
    /// Will create a label area with the max width of all labels and a height of 1.
    /// The area will be top aligned with the widget.
    String(String),
    /// Label by width.
    ///
    /// Will create a label area with the max width of all labels and a height of 1.
    /// The area will be top aligned with the widget.
    ///
    ///  __unit: cols__
    Width(u16),
    /// Label by height+width.
    ///
    /// Will create a label area with the max width of all labels and a height of rows.
    /// The area will be top aligned with the widget.
    ///
    ///  __unit: cols,rows__
    Size(u16, u16),
}

/// Widget constraints for [LayoutForm].
///
/// Any given widths and heights will be reduced if there is not enough space.
#[derive(Debug, Default, Clone, Copy, PartialEq, Eq, Structural)]
pub enum FormWidget {
    /// No widget, just a label.
    #[default]
    Empty,
    /// Widget aligned with the label.
    ///
    /// Will create an area with the given width and height 1.
    ///
    /// __unit: cols__
    Width(u16),
    /// Widget aligned with the label.
    ///
    /// Will create an area with the given width and height.
    ///
    /// __unit: cols,rows__
    Size(u16, u16),
    /// Widget aligned with the label.
    ///
    /// The widget will start with the given number of rows.
    /// If there is remaining vertical space left after a page-break this
    /// widget will get it. If there are more than one such widget
    /// the remainder will be evenly distributed.
    ///
    /// __unit: cols,rows__
    StretchY(u16, u16),
    /// Widget stacked below the label.
    ///
    /// Any label that is not FormLabel::Empty will be placed above
    /// the widget.
    ///
    /// __unit: cols,rows__
    Wide(u16, u16),
    /// Widget filling the maximum width.
    ///
    /// __unit: cols,rows__
    StretchX(u16, u16),
    /// Widget stacked below the label, with the maximum width.
    ///
    /// __unit: cols,rows__
    WideStretchX(u16, u16),
    /// Stretch the widget to the maximum width and height.
    ///
    /// The widget will start with the given number of rows.
    /// If there is remaining vertical space left after a page-break this
    /// widget will get it. If there are more than one such widget
    /// the remainder will be evenly distributed.
    ///
    /// __unit: cols,rows__
    StretchXY(u16, u16),
    /// Widget stacked below the label, with the maximum width and height.
    ///
    /// The widget will start with the given number of rows.
    /// If there is remaining vertical space left after a page-break this
    /// widget will get it. If there are more than one such widget
    /// the remainder will be evenly distributed.
    ///
    /// __unit: rows__
    WideStretchXY(u16, u16),
}

/// Does the widget take the remaining vertical space of a page?
pub open spec fn spec_is_stretch_y(w: FormWidget) -> bool {
    match w {
        FormWidget::StretchXY(_, _) | FormWidget::WideStretchXY(_, _) | FormWidget::StretchY(
            _,
            _,
        ) => true,
        _ => false,
    }
}

/// Preferred width of the widget.
pub open spec fn widget_width(w: FormWidget) -> u16 {
    match w {
        FormWidget::Empty => 0,
        FormWidget::Width(w) => w,
        FormWidget::Size(w, _) => w,
        FormWidget::StretchY(w, _) => w,
        FormWidget::Wide(w, _) => w,
        FormWidget::StretchX(w, _) => w,
        FormWidget::WideStretchX(w, _) => w,
        FormWidget::StretchXY(w, _) => w,
        FormWidget::WideStretchXY(w, _) => w,
    }
}

/// Preferred height of the widget.
pub open spec fn widget_height(w: FormWidget) -> u16 {
    match w {
        FormWidget::Empty => 0,
        FormWidget::Width(_) => 1,
        FormWidget::Size(_, h) => h,
        FormWidget::StretchY(_, h) => h,
        FormWidget::Wide(_, h) => h,
        FormWidget::StretchX(_, h) => h,
        FormWidget::WideStretchX(_, h) => h,
        FormWidget::StretchXY(_, h) => h,
        FormWidget::WideStretchXY(_, h) => h,
    }
}

impl FormWidget {
    /// Does the widget take the remaining vertical space of a page?
    pub fn is_stretch_y(&self) -> (r: bool)
        ensures
            r == spec_is_stretch_y(*self),
    {
        match self {
            FormWidget::Empty => false,
            FormWidget::Width(_) => false,
            FormWidget::Size(_, _) => false,
            FormWidget::Wide(_, _) => false,
            FormWidget::StretchX(_, _) => false,
            FormWidget::WideStretchX(_, _) => false,
            FormWidget::StretchXY(_, _) => true,
            FormWidget::WideStretchXY(_, _) => true,
            FormWidget::StretchY(_, _) => true,
        }
    }
}

/// Width of a label text, as the form stores it: the display width cut to u16.
pub open spec fn label_text_width(s: Seq<char>) -> u16 {
    display_width(s) as u16
}

/// Width of a label constraint; labels by example are measured.
pub open spec fn label_width(l: FormLabel) -> u16 {
    match l {
        FormLabel::Empty => 0,
        FormLabel::Str(s) => label_text_width(s@),
        FormLabel::String(s) => label_text_width(s@),
        FormLabel::Width(w) => w,
        FormLabel::Size(w, _) => w,
    }
}

/// Height of a label constraint.
pub open spec fn label_height(l: FormLabel) -> u16 {
    match l {
        FormLabel::Empty => 0,
        FormLabel::Size(_, h) => h,
        _ => 1,
    }
}

/// Tag for a group/block.
#[derive(Debug, Default, PartialEq, Eq, Clone, Copy, Structural)]
pub struct BlockTag(pub usize);

/// A label + widget definition of the form.
///
/// The label is kept by width (`None`, `Width` or `Size`); a label by
/// example has been measured and its text moved to `label_str`.
#[derive(Debug)]
pub struct WidgetDef<W> {
    /// widget id
    pub id: W,
    /// label constraint
    pub label: FormLabel,
    /// label text
    pub label_str: Option<String>,
    /// widget constraint
    pub widget: FormWidget,
}

/// A group/block of widgets.
#[derive(Debug)]
pub struct BlockDef<B> {
    pub id: BlockTag,
    /// block
    pub block: Option<B>,
    /// padding due to block
    pub padding: Padding,
    /// under construction
    pub constructing: bool,
    /// range into the widget list: start
    pub range_start: usize,
    /// range into the widget list: end, exclusive
    pub range_end: usize,
    /// calculated container area.
    pub area: Rect,
}

/// Create a layout with a single column of label+widget.
///
/// There are a number of possible constraints that influence
/// the exact layout: [FormLabel] and [FormWidget].
///
/// * This layout can page break the form, if there is not enough
///   space on one page.
/// * Or it can generate an endless layout that will be used
///   with scrolling logic.
///
/// The widgets can be grouped together and a block can be set
/// to highlight this grouping. Groups can cascade. Groups will
/// be correctly broken by the page break logic.
///
/// The block type `B` is carried through as is; its padding is given
/// when the group is started.
#[derive(Debug)]
pub struct LayoutForm<W, B> {
    /// Column spacing.
    pub spacing: u16,
    /// Line spacing.
    pub line_spacing: u16,
    /// Column spacing
    pub column_spacing: u16,
    /// Page border.
    pub page_border: Padding,
    /// Mirror the borders between even/odd pages.
    pub mirror_border: bool,
    /// Layout as columns.
    pub columns: u16,
    /// Flex
    pub flex: Flex,
    /// Areas
    pub widgets: Vec<WidgetDef<W>>,
    /// Containers/Blocks
    pub blocks: Vec<BlockDef<B>>,
    /// Page breaks.
    pub page_breaks: Vec<usize>,
    /// maximum width
    pub max_label: u16,
    pub max_widget: u16,
    /// maximum padding due to containers.
    pub max_left_padding: u16,
    pub max_right_padding: u16,
    /// current left indent.
    pub left_padding: u16,
    /// current right indent.
    pub right_padding: u16,
}

/// Sum of the left paddings of the open blocks.
pub open spec fn open_left<B>(bs: Seq<BlockDef<B>>) -> int
    decreases bs.len(),
{
    if bs.len() == 0 {
        0
    } else {
        open_left(bs.drop_last()) + if bs.last().constructing {
            bs.last().padding.left as int
        } else {
            0
        }
    }
}

/// Sum of the right paddings of the open blocks.
pub open spec fn open_right<B>(bs: Seq<BlockDef<B>>) -> int
    decreases bs.len(),
{
    if bs.len() == 0 {
        0
    } else {
        open_right(bs.drop_last()) + if bs.last().constructing {
            bs.last().padding.right as int
        } else {
            0
        }
    }
}

/// Block `i` is the last open block, and has the given tag.
pub open spec fn innermost_open<B>(bs: Seq<BlockDef<B>>, tag: BlockTag, i: int) -> bool {
    &&& 0 <= i < bs.len()
    &&& bs[i].id == tag
    &&& bs[i].constructing
    &&& forall|j: int| i < j < bs.len() ==> !(#[trigger] bs[j]).constructing
}

/// All blocks are closed.
pub open spec fn all_closed<B>(bs: Seq<BlockDef<B>>) -> bool {
    forall|i: int| 0 <= i < bs.len() ==> !(#[trigger] bs[i]).constructing
}

impl<B> BlockDef<B> {
    /// Does the closing of this block leave it as `new`, with the end at `end`?
    pub open spec fn closed_as(self, new: BlockDef<B>, end: usize) -> bool {
        &&& new.id == self.id
        &&& new.block == self.block
        &&& new.padding == self.padding
        &&& !new.constructing
        &&& new.range_start == self.range_start
        &&& new.range_end == end
        &&& new.area == self.area
    }
}

/// Removing a block's left padding from the open sum.
proof fn lemma_close_block<B>(bs: Seq<BlockDef<B>>, i: int, new: BlockDef<B>, end: usize)
    requires
        0 <= i < bs.len(),
        bs[i].constructing,
        bs[i].closed_as(new, end),
    ensures
        open_left(bs.update(i, new)) == open_left(bs) - bs[i].padding.left,
        open_right(bs.update(i, new)) == open_right(bs) - bs[i].padding.right,
        open_left(bs) >= bs[i].padding.left,
        open_right(bs) >= bs[i].padding.right,
    decreases bs.len(),
{
    lemma_open_nonneg(bs.drop_last());
    if i == bs.len() - 1 {
        assert(bs.update(i, new).drop_last() =~= bs.drop_last());
    } else {
        assert(bs.update(i, new).drop_last() =~= bs.drop_last().update(i, new));
        lemma_close_block(bs.drop_last(), i, new, end);
    }
}

/// The open sums are not negative.
proof fn lemma_open_nonneg<B>(bs: Seq<BlockDef<B>>)
    ensures
        open_left(bs) >= 0,
        open_right(bs) >= 0,
    decreases bs.len(),
{
    if bs.len() > 0 {
        lemma_open_nonneg(bs.drop_last());
    }
}

impl<W, B> LayoutForm<W, B> {
    /// Internal consistency: block tags are their indices, ranges lie in
    /// the widget list, the current indents sum up the open blocks,
    /// page breaks follow existing widgets and there is at least one column.
    pub open spec fn wf(&self) -> bool {
        &&& 1 <= self.columns <= u8::MAX
        &&& forall|i: int|
            0 <= i < self.blocks@.len() ==> (#[trigger] self.blocks@[i]).id == BlockTag(
                i as usize,
            )
        &&& forall|i: int|
            0 <= i < self.blocks@.len() ==> (#[trigger] self.blocks@[i]).range_start
                <= self.blocks@[i].range_end <= self.widgets@.len()
        &&& forall|i: int|
            0 <= i < self.blocks@.len() && (#[trigger] self.blocks@[i]).constructing
                ==> self.blocks@[i].range_end == self.blocks@[i].range_start
        &&& self.left_padding == open_left(self.blocks@)
        &&& self.right_padding == open_right(self.blocks@)
        &&& self.left_padding <= self.max_left_padding
        &&& self.right_padding <= self.max_right_padding
        &&& forall|k: int|
            0 <= k < self.page_breaks@.len() ==> #[trigger] self.page_breaks@[k]
                < self.widgets@.len()
        &&& forall|i: int| 0 <= i < self.widgets@.len() ==> is_measured(#[trigger] self.widgets@[i].label)
    }

    /// Same widgets, blocks and page breaks.
    pub open spec fn same_parts(&self, other: &Self) -> bool {
        &&& self.widgets@ == other.widgets@
        &&& self.blocks@ == other.blocks@
        &&& self.page_breaks@ == other.page_breaks@
        &&& self.max_label == other.max_label
        &&& self.max_widget == other.max_widget
        &&& self.max_left_padding == other.max_left_padding
        &&& self.max_right_padding == other.max_right_padding
        &&& self.left_padding == other.left_padding
        &&& self.right_padding == other.right_padding
    }

    /// Same page settings.
    pub open spec fn same_settings(&self, other: &Self) -> bool {
        &&& self.spacing == other.spacing
        &&& self.line_spacing == other.line_spacing
        &&& self.column_spacing == other.column_spacing
        &&& self.page_border == other.page_border
        &&& self.mirror_border == other.mirror_border
        &&& self.columns == other.columns
        &&& self.flex == other.flex
    }

    /// New form layout: spacing 1, column spacing 1, one column,
    /// no border, no widgets.
    pub fn new() -> (r: Self)
        ensures
            r.wf(),
            r.spacing == 1,
            r.line_spacing == 0,
            r.column_spacing == 1,
            r.page_border == (Padding { left: 0, right: 0, top: 0, bottom: 0 }),
            !r.mirror_border,
            r.columns == 1,
            r.flex == Flex::Start,
            r.widgets@.len() == 0,
            r.blocks@.len() == 0,
            r.page_breaks@.len() == 0,
            r.max_label == 0,
            r.max_widget == 0,
            r.max_left_padding == 0,
            r.max_right_padding == 0,
    {
        LayoutForm {
            spacing: 1,
            line_spacing: 0,
            column_spacing: 1,
            page_border: Padding::new(0, 0, 0, 0),
            mirror_border: false,
            columns: 1,
            flex: Flex::Start,
            widgets: Vec::new(),
            blocks: Vec::new(),
            page_breaks: Vec::new(),
            max_label: 0,
            max_widget: 0,
            max_left_padding: 0,
            max_right_padding: 0,
            left_padding: 0,
            right_padding: 0,
        }
    }

    /// Spacing between label and widget.
    pub fn spacing(self, spacing: u16) -> (r: Self)
        ensures
            r.spacing == spacing,
            r.line_spacing == self.line_spacing,
            r.column_spacing == self.column_spacing,
            r.page_border == self.page_border,
            r.mirror_border == self.mirror_border,
            r.columns == self.columns,
            r.flex == self.flex,
            r.same_parts(&self),
    {
        LayoutForm { spacing, ..self }
    }

    /// Empty lines between widgets.
    pub fn line_spacing(self, spacing: u16) -> (r: Self)
        ensures
            r.line_spacing == spacing,
            r.spacing == self.spacing,
            r.column_spacing == self.column_spacing,
            r.page_border == self.page_border,
            r.mirror_border == self.mirror_border,
            r.columns == self.columns,
            r.flex == self.flex,
            r.same_parts(&self),
    {
        LayoutForm { line_spacing: spacing, ..self }
    }

    /// Empty space between columns.
    pub fn column_spacing(self, spacing: u16) -> (r: Self)
        ensures
            r.column_spacing == spacing,
            r.spacing == self.spacing,
            r.line_spacing == self.line_spacing,
            r.page_border == self.page_border,
            r.mirror_border == self.mirror_border,
            r.columns == self.columns,
            r.flex == self.flex,
            r.same_parts(&self),
    {
        LayoutForm { column_spacing: spacing, ..self }
    }

    /// Page border.
    pub fn border(self, border: Padding) -> (r: Self)
        ensures
            r.page_border == border,
            r.spacing == self.spacing,
            r.line_spacing == self.line_spacing,
            r.column_spacing == self.column_spacing,
            r.mirror_border == self.mirror_border,
            r.columns == self.columns,
            r.flex == self.flex,
            r.same_parts(&self),
    {
        LayoutForm { page_border: border, ..self }
    }

    /// Mirror the border given to layout between even and odd pages.
    /// The layout starts with page 0 which is even.
    pub fn mirror_odd_border(self) -> (r: Self)
        ensures
            r.mirror_border,
            r.spacing == self.spacing,
            r.line_spacing == self.line_spacing,
            r.column_spacing == self.column_spacing,
            r.page_border == self.page_border,
            r.columns == self.columns,
            r.flex == self.flex,
            r.same_parts(&self),
    {
        LayoutForm { mirror_border: true, ..self }
    }

    /// Layout as multiple columns.
    pub fn columns(self, columns: u8) -> (r: Self)
        requires
            columns != 0,
        ensures
            r.columns == columns,
            r.spacing == self.spacing,
            r.line_spacing == self.line_spacing,
            r.column_spacing == self.column_spacing,
            r.page_border == self.page_border,
            r.mirror_border == self.mirror_border,
            r.flex == self.flex,
            r.same_parts(&self),
    {
        LayoutForm { columns: columns as u16, ..self }
    }

    /// Flex.
    pub fn flex(self, flex: Flex) -> (r: Self)
        ensures
            r.flex == flex,
            r.spacing == self.spacing,
            r.line_spacing == self.line_spacing,
            r.column_spacing == self.column_spacing,
            r.page_border == self.page_border,
            r.mirror_border == self.mirror_border,
            r.columns == self.columns,
            r.same_parts(&self),
    {
        LayoutForm { flex, ..self }
    }

    /// Set a reference label width
    pub fn min_label(self, width: u16) -> (r: Self)
        ensures
            r.max_label == width,
            r.same_settings(&self),
            r.widgets@ == self.widgets@,
            r.blocks@ == self.blocks@,
            r.page_breaks@ == self.page_breaks@,
            r.max_widget == self.max_widget,
            r.max_left_padding == self.max_left_padding,
            r.max_right_padding == self.max_right_padding,
            r.left_padding == self.left_padding,
            r.right_padding == self.right_padding,
    {
        LayoutForm { max_label: width, ..self }
    }

    /// Set a reference widget width
    pub fn min_widget(self, width: u16) -> (r: Self)
        ensures
            r.max_widget == width,
            r.same_settings(&self),
            r.widgets@ == self.widgets@,
            r.blocks@ == self.blocks@,
            r.page_breaks@ == self.page_breaks@,
            r.max_label == self.max_label,
            r.max_left_padding == self.max_left_padding,
            r.max_right_padding == self.max_right_padding,
            r.left_padding == self.left_padding,
            r.right_padding == self.right_padding,
    {
        LayoutForm { max_widget: width, ..self }
    }

    /// Start a group/block.
    ///
    /// This will create a block that covers all widgets added
    /// before calling `end()`. `padding` is the space the block takes
    /// inside its area.
    ///
    /// Groups/blocks can be stacked, but they cannot interleave.
    /// An inner group/block must be closed before an outer one.
    pub fn start(&mut self, block: Option<B>, padding: Padding) -> (r: BlockTag)
        requires
            old(self).wf(),
            old(self).left_padding + padding.left <= u16::MAX,
            old(self).right_padding + padding.right <= u16::MAX,
        ensures
            final(self).wf(),
            r == BlockTag(old(self).blocks@.len() as usize),
            final(self).blocks@.len() == old(self).blocks@.len() + 1,
            final(self).blocks@.drop_last() == old(self).blocks@,
            final(self).blocks@.last().id == r,
            final(self).blocks@.last().block == block,
            final(self).blocks@.last().padding == padding,
            final(self).blocks@.last().constructing,
            final(self).blocks@.last().range_start == old(self).widgets@.len(),
            final(self).blocks@.last().range_end == old(self).widgets@.len(),
            final(self).blocks@.last().area == Rect::zero(),
            final(self).left_padding == old(self).left_padding + padding.left,
            final(self).right_padding == old(self).right_padding + padding.right,
            final(self).max_left_padding == max_u16(
                old(self).max_left_padding,
                final(self).left_padding,
            ),
            final(self).max_right_padding == max_u16(
                old(self).max_right_padding,
                final(self).right_padding,
            ),
            final(self).same_settings(old(self)),
            final(self).widgets@ == old(self).widgets@,
            final(self).page_breaks@ == old(self).page_breaks@,
            final(self).max_label == old(self).max_label,
            final(self).max_widget == old(self).max_widget,
    {
        let max_idx = self.widgets.len();
        let tag = BlockTag(self.blocks.len());
        self.blocks.push(
            BlockDef {
                id: tag,
                block,
                padding,
                constructing: true,
                range_start: max_idx,
                range_end: max_idx,
                area: Rect { x: 0, y: 0, width: 0, height: 0 },
            },
        );
        assert(self.blocks@.drop_last() =~= old(self).blocks@);

        self.left_padding = self.left_padding + padding.left;
        self.right_padding = self.right_padding + padding.right;

        if self.left_padding > self.max_left_padding {
            self.max_left_padding = self.left_padding;
        }
        if self.right_padding > self.max_right_padding {
            self.max_right_padding = self.right_padding;
        }
        tag
    }

    /// Closes the group/block with the given tag.
    ///
    /// Groups must be closed in reverse start order, and there must be
    /// an open group with the tag.
    pub fn end(&mut self, tag: BlockTag)
        requires
            old(self).wf(),
            exists|i: int| innermost_open(old(self).blocks@, tag, i),
        ensures
            final(self).wf(),
            final(self).blocks@.len() == old(self).blocks@.len(),
            forall|i: int|
                innermost_open(old(self).blocks@, tag, i) ==> {
                    &&& old(self).blocks@[i].closed_as(
                        final(self).blocks@[i],
                        old(self).widgets@.len() as usize,
                    )
                    &&& final(self).blocks@ == old(self).blocks@.update(i, final(self).blocks@[i])
                    &&& final(self).left_padding == old(self).left_padding
                        - old(self).blocks@[i].padding.left
                    &&& final(self).right_padding == old(self).right_padding
                        - old(self).blocks@[i].padding.right
                },
            final(self).same_settings(old(self)),
            final(self).widgets@ == old(self).widgets@,
            final(self).page_breaks@ == old(self).page_breaks@,
            final(self).max_label == old(self).max_label,
            final(self).max_widget == old(self).max_widget,
            final(self).max_left_padding == old(self).max_left_padding,
            final(self).max_right_padding == old(self).max_right_padding,
    {
        let ghost target = choose|i: int| innermost_open(old(self).blocks@, tag, i);
        let max = self.widgets.len();
        let mut k = self.blocks.len();
        while k > 0
            invariant
                self.blocks@ == old(self).blocks@,
                self.widgets@ == old(self).widgets@,
                self.wf(),
                innermost_open(old(self).blocks@, tag, target),
                target < k <= self.blocks@.len(),
                max == old(self).widgets@.len(),
                self.same_settings(old(self)),
                self.page_breaks@ == old(self).page_breaks@,
                self.max_label == old(self).max_label,
                self.max_widget == old(self).max_widget,
                self.max_left_padding == old(self).max_left_padding,
                self.max_right_padding == old(self).max_right_padding,
                self.left_padding == old(self).left_padding,
                self.right_padding == old(self).right_padding,
            decreases k,
        {
            k = k - 1;
            let found = self.blocks[k].id == tag && self.blocks[k].constructing;
            if found {
                assert(k == target);
                let left = self.blocks[k].padding.left;
                let right = self.blocks[k].padding.right;
                let ghost old_blocks = self.blocks@;
                assert(old_blocks[k as int].range_start <= old_blocks[k as int].range_end);
                let mut cc = self.blocks.remove(k);
                cc.range_end = max;
                cc.constructing = false;
                self.blocks.insert(k, cc);
                proof {
                    assert(self.blocks@ =~= old_blocks.update(k as int, cc));
                    lemma_close_block(old_blocks, k as int, cc, max);
                }
                self.left_padding = self.left_padding - left;
                self.right_padding = self.right_padding - right;
                proof {
                    assert forall|i: int| innermost_open(old(self).blocks@, tag, i) implies i
                        == k as int by {
                        if i < k {
                            assert(!old(self).blocks@[k as int].constructing);
                        } else if i > k {
                            assert(!old(self).blocks@[i].constructing);
                        }
                    }
                    assert forall|i: int| 0 <= i < self.blocks@.len() implies (
                    #[trigger] self.blocks@[i]).range_start <= self.blocks@[i].range_end
                        <= self.widgets@.len() by {
                        if i == k {
                            assert(old_blocks[i].range_start <= old_blocks[i].range_end);
                            assert(cc.range_start == old_blocks[i].range_start);
                            assert(cc.range_end == max);
                            assert(max == self.widgets@.len());
                            assert(self.blocks@[i] == cc);
                        }
                    }
                }
                return;
            }
        }
        assert(false);
    }

    /// Add label + widget constraint.
    /// Key must be a unique identifier.
    pub fn widget(&mut self, key: W, label: FormLabel, widget: FormWidget)
        requires
            old(self).wf(),
        ensures
            final(self).wf(),
            final(self).widgets@.len() == old(self).widgets@.len() + 1,
            final(self).widgets@.drop_last() == old(self).widgets@,
            final(self).widgets@.last().id == key,
            final(self).widgets@.last().widget == widget,
            final(self).widgets@.last().label == (match label {
                FormLabel::Empty => FormLabel::Empty,
                FormLabel::Size(w, h) => FormLabel::Size(w, h),
                _ => FormLabel::Width(label_width(label)),
            }),
            match label {
                FormLabel::Str(s) => final(self).widgets@.last().label_str matches Some(t) && t@
                    == s@,
                FormLabel::String(s) => final(self).widgets@.last().label_str == Some(s),
                _ => final(self).widgets@.last().label_str is None,
            },
            final(self).max_label == max_u16(old(self).max_label, label_width(label)),
            final(self).max_widget == max_u16(old(self).max_widget, widget_width(widget)),
            final(self).same_settings(old(self)),
            final(self).blocks@ == old(self).blocks@,
            final(self).page_breaks@ == old(self).page_breaks@,
            final(self).max_left_padding == old(self).max_left_padding,
            final(self).max_right_padding == old(self).max_right_padding,
            final(self).left_padding == old(self).left_padding,
            final(self).right_padding == old(self).right_padding,
    {
        // split label by sample
        let (label, label_str) = match label {
            FormLabel::Str(s) => {
                let width = #[verifier::truncate] (text_width(s) as u16);
                (FormLabel::Width(width), Some(s.to_owned()))
            },
            FormLabel::String(s) => {
                let width = #[verifier::truncate] (text_width(s.as_str()) as u16);
                (FormLabel::Width(width), Some(s))
            },
            FormLabel::Width(w) => (FormLabel::Width(w), None),
            FormLabel::Size(w, h) => (FormLabel::Size(w, h), None),
            FormLabel::Empty => (FormLabel::Empty, None),
        };

        let w = match label {
            FormLabel::Width(w) => w,
            FormLabel::Size(w, _) => w,
            _ => 0,
        };
        if w > self.max_label {
            self.max_label = w;
        }
        let w = match widget {
            FormWidget::Empty => 0,
            FormWidget::Width(w) => w,
            FormWidget::Size(w, _) => w,
            FormWidget::StretchY(w, _) => w,
            FormWidget::Wide(w, _) => w,
            FormWidget::StretchX(w, _) => w,
            FormWidget::WideStretchX(w, _) => w,
            FormWidget::StretchXY(w, _) => w,
            FormWidget::WideStretchXY(w, _) => w,
        };
        if w > self.max_widget {
            self.max_widget = w;
        }

        self.widgets.push(WidgetDef { id: key, label, label_str, widget });
        assert(self.widgets@.drop_last() =~= old(self).widgets@);
    }

    /// Add a manual page break after the last widget.
    ///
    /// There must be a widget already.
    pub fn page_break(&mut self)
        requires
            old(self).wf(),
            old(self).widgets@.len() > 0,
        ensures
            final(self).wf(),
            final(self).page_breaks@ == old(self).page_breaks@.push(
                (old(self).widgets@.len() - 1) as usize,
            ),
            final(self).same_settings(old(self)),
            final(self).widgets@ == old(self).widgets@,
            final(self).blocks@ == old(self).blocks@,
            final(self).max_label == old(self).max_label,
            final(self).max_widget == old(self).max_widget,
            final(self).max_left_padding == old(self).max_left_padding,
            final(self).max_right_padding == old(self).max_right_padding,
            final(self).left_padding == old(self).left_padding,
            final(self).right_padding == old(self).right_padding,
    {
        let last = self.widgets.len() - 1;
        self.page_breaks.push(last);
    }
}

/// Label, spacing, widget and block paddings side by side, at their preferred widths.
pub open spec fn nominal_width<W, B>(l: &LayoutForm<W, B>) -> int {
    l.max_left_padding + l.max_label + l.spacing + l.max_widget + l.max_right_padding
}

/// Width of one column of the page.
pub open spec fn column_width<W, B>(l: &LayoutForm<W, B>, page_width: u16) -> u16 {
    sat_sub(
        (sat_sub(sat_sub(page_width, l.page_border.left), l.page_border.right) / l.columns) as u16,
        l.column_spacing,
    )
}

/// Label, spacing and widget widths of a page of this width: reduced by
/// the excess of the nominal width over the column width, see `shrink`.
pub open spec fn adjusted_widths_spec<W, B>(l: &LayoutForm<W, B>, page_width: u16) -> (u16, u16, u16) {
    let cw = column_width(l, page_width);
    if nominal_width(l) > cw {
        shrink_spec(l.max_label, l.spacing, l.max_widget, (nominal_width(l) - cw) as u16)
    } else {
        (l.max_label, l.spacing, l.max_widget)
    }
}

/// The columns fit the cell coordinates: border, page width and all columns
/// at their preferred widths add up to at most `u16::MAX`; and with
/// `Flex::Legacy` the block paddings fit into a column.
pub open spec fn x_fits<W, B>(l: &LayoutForm<W, B>, page_width: u16) -> bool {
    &&& l.columns >= 1
    &&& l.page_border.left + l.page_border.right + page_width + l.columns * (nominal_width(l)
        + l.column_spacing) <= u16::MAX
    &&& l.flex == Flex::Legacy ==> sat_sub(column_width(l, page_width), l.max_right_padding)
        >= l.max_left_padding
}

// effective positions for layout construction.
#[derive(Debug, Default, Clone, Copy)]
struct XPositions {
    // label position
    label_left: u16,
    // label width, max.
    label_width: u16,
    // widget position
    widget_left: u16,
    // widget width, max.
    widget_width: u16,
    // max widget position
    widget_right: u16,
    // left position for container blocks.
    container_left: u16,
    // right position for container blocks.
    container_right: u16,
    // total width label+spacing+widget
    total_width: u16,
}

// Current page data
#[derive(Debug, Clone, Copy)]
struct Page {
    // border
    page_border: Padding,
    // full width for all columns
    full_width: u16,
    // layout parameter flex
    flex: Flex,
    // max block padding
    max_left_padding: u16,
    // max block padding
    max_right_padding: u16,
    // max label
    max_label: u16,
    // max widget
    max_widget: u16,
    // page height
    height: u16,
    // top border
    top: u16,
    // bottom border
    bottom: u16,
    // columns
    columns: u16,
    // column spacing
    column_spacing: u16,
    // label/widget spacing
    spacing: u16,
    // line spacing
    line_spacing: u16,
    // page number
    page_no: u16,
    // page start y
    page_start: u16,
    // page end y
    page_end: u16,
    // current y
    y: u16,
    // top padding, accumulated
    top_padding: u16,
    // bottom padding, accumulated
    bottom_padding: u16,
    // bottom padding in case of page-break, accumulated
    bottom_padding_break: u16,
    // current line spacing.
    effective_line_spacing: u16,
    // current page x-positions
    x_pos: XPositions,
}

impl Page {
    /// The horizontal settings of the page fit the cell coordinates.
    spec fn x_ok(self) -> bool {
        &&& 1 <= self.columns <= u8::MAX
        &&& self.page_border.left + self.page_border.right + self.full_width + self.columns * (
        self.max_left_padding + self.max_label + self.spacing + self.max_widget
            + self.max_right_padding + self.column_spacing) <= u16::MAX
        &&& self.flex == Flex::Legacy ==> sat_sub(
            sat_sub(
                (sat_sub(
                    sat_sub(self.full_width, self.page_border.left),
                    self.page_border.right,
                ) / self.columns) as u16,
                self.column_spacing,
            ),
            self.max_right_padding,
        ) >= self.max_left_padding
    }
}

/// The page border, left and right swapped on a mirrored page.
spec fn page_border_of(page: Page, mirror: bool) -> Padding {
    if mirror {
        Padding {
            left: page.page_border.right,
            right: page.page_border.left,
            top: page.page_border.top,
            bottom: page.page_border.bottom,
        }
    } else {
        page.page_border
    }
}

/// Where a column starts and, relative to that, where its widget starts
/// and ends and where its container ends, with the flex of the page:
/// `Legacy` divides the width into equal columns; `Start`, `Center` and
/// `End` place columns of their nominal width at the start, centered or
/// at the end; `SpaceAround` and `SpaceEvenly` share the free width
/// evenly before, between and after the columns; `SpaceBetween` shares it
/// in twice as many parts and also puts one between label and widget.
#[verifier::opaque]
spec fn column_offsets(page: Page, column: u16, mirror: bool) -> (int, int, int, int) {
    let border = page_border_of(page, mirror);
    let layout_width = sat_sub(sat_sub(page.full_width, border.left), border.right);
    let column_width = sat_sub((layout_width / page.columns) as u16, page.column_spacing);
    let right_margin = sat_sub(page.full_width, border.right);
    let nominal = page.max_left_padding + page.max_label + page.spacing + page.max_widget
        + page.max_right_padding;
    let widget_left = page.max_left_padding + page.max_label + page.spacing;
    let widget_right = widget_left + page.max_widget;
    let container_right = widget_right + page.max_right_padding;
    let single_width = nominal + page.column_spacing;
    match page.flex {
        Flex::Legacy => (
            border.left + (column_width + page.column_spacing) * column,
            widget_left,
            sat_sub(column_width, page.max_right_padding) as int,
            column_width as int,
        ),
        Flex::Start => (border.left + single_width * column, widget_left, widget_right, container_right),
        Flex::Center => {
            let rest = sat_sub(layout_width, (single_width * page.columns) as u16);
            (border.left + rest / 2 + single_width * column, widget_left, widget_right, container_right)
        },
        Flex::End => (
            sat_sub(right_margin, (single_width * (page.columns - column)) as u16) as int,
            widget_left,
            widget_right,
            container_right,
        ),
        Flex::SpaceBetween => {
            let sw = page.max_left_padding + page.max_label + page.max_widget + page.max_right_padding;
            let rest = sat_sub(layout_width, (sw * page.columns) as u16);
            let spacing = rest as int / (2 * page.columns + 1);
            let wl = page.max_left_padding + page.max_label + spacing;
            let wr = wl + page.max_widget;
            (border.left + spacing + (sw + 2 * spacing) * column, wl, wr, wr + page.max_right_padding)
        },
        _ => {
            let rest = sat_sub(layout_width, (nominal * page.columns) as u16);
            let spacing = rest as int / (page.columns + 1);
            (border.left + spacing + (nominal + spacing) * column, widget_left, widget_right, container_right)
        },
    }
}

/// Horizontal positions for the given column of the page.
spec fn x_positions_spec(page: Page, column: u16, mirror: bool) -> XPositions {
    let (offset, widget_left, widget_right, container_right) = column_offsets(page, column, mirror);
    let label_left = page.max_left_padding as int;
    XPositions {
        container_left: offset as u16,
        label_left: (offset + label_left) as u16,
        label_width: page.max_label,
        widget_left: (offset + widget_left) as u16,
        widget_width: page.max_widget,
        container_right: (offset + container_right) as u16,
        total_width: (widget_right - label_left) as u16,
        widget_right: (offset + widget_right) as u16,
    }
}

impl XPositions {
    /// Horizontal positions for the given column of the page.
    #[verifier::spinoff_prover]
    #[verifier::rlimit(80)]
    fn new(page: &Page, column: u16, mirror: bool) -> (r: XPositions)
        requires
            page.x_ok(),
            column < page.columns,
        ensures
            r == x_positions_spec(*page, column, mirror),
    {
        let border = if mirror {
            Padding::new(
                page.page_border.right,
                page.page_border.left,
                page.page_border.top,
                page.page_border.bottom,
            )
        } else {
            page.page_border
        };

        let layout_width = page.full_width.saturating_sub(border.left).saturating_sub(
            border.right,
        );
        let column_width = (layout_width / page.columns).saturating_sub(page.column_spacing);
        let right_margin = page.full_width.saturating_sub(border.right);

        proof {
            let n = page.max_left_padding + page.max_label + page.spacing + page.max_widget
                + page.max_right_padding + page.column_spacing;
            assert(page.columns * n >= n) by (nonlinear_arith)
                requires
                    page.columns >= 1,
                    n >= 0,
            ;
        }
        let nominal = page.max_left_padding + page.max_label + page.spacing + page.max_widget
            + page.max_right_padding;
        proof {
            assert(column * (nominal + page.column_spacing) <= page.columns * (nominal
                + page.column_spacing)) by (nonlinear_arith)
                requires
                    column < page.columns,
            ;
            assert(layout_width / page.columns * page.columns <= layout_width) by (nonlinear_arith)
                requires
                    page.columns >= 1,
            ;
        }

        let offset: u16;
        let label_left: u16;
        let widget_left: u16;
        let container_left: u16;
        let container_right: u16;
        let widget_right: u16;

        match page.flex {
            Flex::Legacy => {
                proof {
                    let cw = column_width as int;
                    let q = (layout_width / page.columns) as int;
                    assert(cw + page.column_spacing <= q + page.column_spacing);
                    assert((cw + page.column_spacing) * column <= (q + page.column_spacing)
                        * column) by (nonlinear_arith)
                        requires
                            cw + page.column_spacing <= q + page.column_spacing,
                    ;
                    assert((q + page.column_spacing) * column + q + page.column_spacing <= (q
                        + page.column_spacing) * page.columns) by (nonlinear_arith)
                        requires
                            column + 1 <= page.columns,
                            q + page.column_spacing >= 0,
                    ;
                    assert((q + page.column_spacing) * page.columns == q * page.columns
                        + page.column_spacing * page.columns) by (nonlinear_arith);
                    assert(page.column_spacing * page.columns <= page.columns * (nominal
                        + page.column_spacing)) by (nonlinear_arith)
                        requires
                            nominal >= 0,
                    ;
                    assert((q + page.column_spacing) * column + nominal <= q * page.columns
                        + page.columns * (nominal + page.column_spacing)) by (nonlinear_arith)
                        requires
                            column + 1 <= page.columns,
                            q >= 0,
                            nominal >= 0,
                            page.column_spacing >= 0,
                    ;
                }
                offset = border.left + (column_width + page.column_spacing) * column;
                label_left = page.max_left_padding;
                widget_left = label_left + page.max_label + page.spacing;
                widget_right = column_width.saturating_sub(page.max_right_padding);

                container_left = 0;
                container_right = column_width;

                proof {
                    assert(column_offsets(*page, column, mirror) == (offset as int, widget_left as int,
                        widget_right as int, container_right as int)) by {
                        reveal(column_offsets);
                    }
                }
            },
            Flex::Start => {
                let single_width = nominal + page.column_spacing;
                proof {
                    assert(single_width * column + single_width <= page.columns * single_width)
                        by (nonlinear_arith)
                        requires
                            column + 1 <= page.columns,
                            single_width >= 0,
                    ;
                }

                offset = border.left + single_width * column;
                label_left = page.max_left_padding;
                widget_left = label_left + page.max_label + page.spacing;
                widget_right = widget_left + page.max_widget;

                container_left = 0;
                container_right = widget_right + page.max_right_padding;

                proof {
                    assert(column_offsets(*page, column, mirror) == (offset as int, widget_left as int,
                        widget_right as int, container_right as int)) by {
                        reveal(column_offsets);
                    }
                }
            },
            Flex::Center => {
                let single_width = nominal + page.column_spacing;
                proof {
                    assert(single_width * column + single_width <= page.columns * single_width)
                        by (nonlinear_arith)
                        requires
                            column + 1 <= page.columns,
                            single_width >= 0,
                    ;
                    assert(single_width * page.columns == page.columns * single_width)
                        by (nonlinear_arith);
                }
                let rest = layout_width.saturating_sub(single_width * page.columns);

                offset = border.left + rest / 2 + single_width * column;
                label_left = page.max_left_padding;
                widget_left = label_left + page.max_label + page.spacing;
                widget_right = widget_left + page.max_widget;

                container_left = 0;
                container_right = widget_right + page.max_right_padding;

                proof {
                    assert(column_offsets(*page, column, mirror) == (offset as int, widget_left as int,
                        widget_right as int, container_right as int)) by {
                        reveal(column_offsets);
                    }
                }
            },
            Flex::End => {
                let single_width = nominal + page.column_spacing;
                proof {
                    assert(single_width * (page.columns - column) <= page.columns * (nominal
                        + page.column_spacing)) by (nonlinear_arith)
                        requires
                            column < page.columns,
                            single_width == nominal + page.column_spacing,
                    ;
                }

                offset = right_margin.saturating_sub(single_width * (page.columns - column));
                label_left = page.max_left_padding;
                widget_left = label_left + page.max_label + page.spacing;
                widget_right = widget_left + page.max_widget;

                container_left = 0;
                container_right = widget_right + page.max_right_padding;

                proof {
                    assert(column_offsets(*page, column, mirror) == (offset as int, widget_left as int,
                        widget_right as int, container_right as int)) by {
                        reveal(column_offsets);
                    }
                }
            },
            Flex::SpaceAround | Flex::SpaceEvenly => {
                let single_width = nominal;
                proof {
                    assert(single_width * page.columns <= page.columns * (nominal
                        + page.column_spacing)) by (nonlinear_arith)
                        requires
                            single_width == nominal,
                            page.column_spacing >= 0,
                    ;
                }
                let rest = layout_width.saturating_sub(single_width * page.columns);
                let spacing = rest / (page.columns + 1);
                proof {
                    assert(spacing * (page.columns + 1) <= rest) by (nonlinear_arith)
                        requires
                            spacing == rest as int / (page.columns + 1),
                            page.columns >= 1,
                    ;
                    assert((single_width + spacing) * column + spacing + single_width <= (
                    single_width + spacing) * page.columns + spacing) by (nonlinear_arith)
                        requires
                            column < page.columns,
                    ;
                    assert((single_width + spacing) * page.columns + spacing == single_width
                        * page.columns + spacing * (page.columns + 1)) by (nonlinear_arith);
                }

                offset = border.left + spacing + (single_width + spacing) * column;
                label_left = page.max_left_padding;
                widget_left = label_left + page.max_label + page.spacing;
                widget_right = widget_left + page.max_widget;

                container_left = 0;
                container_right = widget_right + page.max_right_padding;

                proof {
                    assert(column_offsets(*page, column, mirror) == (offset as int, widget_left as int,
                        widget_right as int, container_right as int)) by {
                        reveal(column_offsets);
                    }
                }
            },
            Flex::SpaceBetween => {
                let single_width = page.max_left_padding + page.max_label + page.max_widget
                    + page.max_right_padding;
                proof {
                    assert(single_width * page.columns <= page.columns * (nominal
                        + page.column_spacing)) by (nonlinear_arith)
                        requires
                            single_width <= nominal,
                            page.column_spacing >= 0,
                    ;
                }
                let rest = layout_width.saturating_sub(single_width * page.columns);
                let spacing = rest / (2 * page.columns + 1);
                proof {
                    assert(spacing * (2 * page.columns + 1) <= rest) by (nonlinear_arith)
                        requires
                            spacing == rest as int / (2 * page.columns + 1),
                            page.columns >= 1,
                    ;
                    assert((single_width + 2 * spacing) * column + spacing + single_width + 2
                        * spacing <= (single_width + 2 * spacing) * page.columns + spacing)
                        by (nonlinear_arith)
                        requires
                            column < page.columns,
                    ;
                    assert((single_width + 2 * spacing) * page.columns + spacing == single_width
                        * page.columns + spacing * (2 * page.columns + 1)) by (nonlinear_arith);
                }

                offset = border.left + spacing + (single_width + 2 * spacing) * column;
                label_left = page.max_left_padding;
                widget_left = label_left + page.max_label + spacing;
                widget_right = widget_left + page.max_widget;

                container_left = 0;
                container_right = widget_right + page.max_right_padding;

                proof {
                    assert(column_offsets(*page, column, mirror) == (offset as int, widget_left as int,
                        widget_right as int, container_right as int)) by {
                        reveal(column_offsets);
                    }
                }
            },
        }

        XPositions {
            container_left: offset + container_left,
            label_left: offset + label_left,
            label_width: page.max_label,
            widget_left: offset + widget_left,
            widget_width: page.max_widget,
            container_right: offset + container_right,
            total_width: widget_right - label_left,
            widget_right: offset + widget_right,
        }
    }
}

/// All areas end at row `bound` at the latest.
pub open spec fn below(s: Seq<Rect>, bound: int) -> bool {
    forall|i: int| 0 <= i < s.len() ==> (#[trigger] s[i]).y + s[i].height <= bound
}

/// All widget, label and block areas of the layout end at row `bound` at the latest.
pub open spec fn gen_below<W, B>(g: &GenericLayout<W, B>, bound: int) -> bool where
    W: Eq + Hash + Clone,
 {
    &&& below(g.widget_areas(), bound)
    &&& below(g.label_areas(), bound)
    &&& below(g.block_areas(), bound)
}

/// The parts of a layout that the vertical stretching leaves alone.
pub open spec fn same_but_areas<W, B>(a: &GenericLayout<W, B>, b: &GenericLayout<W, B>) -> bool where
    W: Eq + Hash + Clone,
 {
    &&& a.area_view() == b.area_view()
    &&& a.page_size_view() == b.page_size_view()
    &&& a.page_count_view() == b.page_count_view()
    &&& a.key_map() == b.key_map()
    &&& a.keys() == b.keys()
    &&& a.labels() == b.labels()
    &&& a.blocks() == b.blocks()
    &&& a.widget_areas().len() == b.widget_areas().len()
    &&& a.label_areas().len() == b.label_areas().len()
    &&& a.block_areas().len() == b.block_areas().len()
}

/// The area moved down by `stretch` if it starts at or below `test_y`.
pub open spec fn shifted(area: Rect, test_y: u16, stretch: u16) -> Rect {
    if area.y >= test_y {
        Rect { y: (area.y + stretch) as u16, ..area }
    } else {
        area
    }
}

/// The shifted area, grown by `stretch` if it then spans `test_y`.
pub open spec fn shifted_or_stretched(area: Rect, test_y: u16, stretch: u16) -> Rect {
    let a = shifted(area, test_y, stretch);
    if a.y <= test_y && a.spec_bottom() > test_y {
        Rect { height: (a.height + stretch) as u16, ..a }
    } else {
        a
    }
}

/// Shift an area down if it starts at or below `test_y`; stretch it if it spans `test_y`.
fn shift_or_stretch(area: Rect, test_y: u16, stretch: u16, Ghost(bound): Ghost<int>) -> (r: Rect)
    requires
        area.y + area.height <= bound,
        bound + stretch <= u16::MAX,
    ensures
        r == shifted_or_stretched(area, test_y, stretch),
        r.y + r.height <= bound + stretch,
        r.x == area.x,
        r.width == area.width,
{
    let mut area = area;
    if area.y >= test_y {
        area.y = area.y + stretch;
    }
    // may stretch the container
    if area.y <= test_y && area.bottom() > test_y {
        area.height = area.height + stretch;
    }
    area
}

/// Shift a widget or label area down if it starts at or below `test_y`.
fn shift(area: Rect, test_y: u16, stretch: u16, Ghost(bound): Ghost<int>) -> (r: Rect)
    requires
        area.y + area.height <= bound,
        bound + stretch <= u16::MAX,
    ensures
        r == shifted(area, test_y, stretch),
        r.y + r.height <= bound + stretch,
        r.x == area.x,
        r.width == area.width,
        r.height == area.height,
{
    let mut area = area;
    if area.y >= test_y {
        area.y = area.y + stretch;
    }
    area
}

/// Distribute the vertical space left on the page among the recorded
/// stretch widgets, in order; everything below a stretched widget moves
/// down, blocks around it grow.
fn adjust_y_stretch<W, B>(
    page: &Page,
    stretch_y: &mut Vec<usize>,
    gen_layout: &mut GenericLayout<W, B>,
    Ghost(bound): Ghost<int>,
) where W: Eq + Hash + Clone
    requires
        old(gen_layout).wf(),
        gen_below(old(gen_layout), bound),
        forall|k: int|
            0 <= k < old(stretch_y)@.len() ==> #[trigger] old(stretch_y)@[k] < old(
                gen_layout,
            ).widget_areas().len(),
        old(stretch_y)@.len() <= u16::MAX,
        old(stretch_y)@.len() > 0 ==> bound + sat_sub(page.page_end, page.y) <= u16::MAX,
    ensures
        final(gen_layout).wf(),
        same_but_areas(final(gen_layout), old(gen_layout)),
        old(stretch_y)@.len() > 0 ==> gen_below(
            final(gen_layout),
            bound + sat_sub(page.page_end, page.y),
        ),
        old(stretch_y)@.len() == 0 ==> final(gen_layout).widget_areas() == old(
            gen_layout,
        ).widget_areas() && final(gen_layout).label_areas() == old(gen_layout).label_areas()
            && final(gen_layout).block_areas() == old(gen_layout).block_areas(),
        final(stretch_y)@.len() == 0,
{
    let mut remainder = page.page_end.saturating_sub(page.y);
    if remainder == 0 || stretch_y.len() == 0 {
        stretch_y.clear();
        return ;
    }
    let ghost rem0 = remainder as int;
    let ghost g0 = *gen_layout;

    let mut n = stretch_y.len() as u16;
    let mut k: usize = 0;
    while k < stretch_y.len()
        invariant
            gen_layout.wf(),
            same_but_areas(gen_layout, &g0),
            g0.wf(),
            stretch_y@ == old(stretch_y)@,
            forall|j: int|
                0 <= j < stretch_y@.len() ==> #[trigger] stretch_y@[j]
                    < g0.widget_areas().len(),
            stretch_y@.len() <= u16::MAX,
            stretch_y@.len() > 0,
            bound + rem0 <= u16::MAX,
            k <= stretch_y@.len(),
            n == stretch_y@.len() - k,
            remainder <= rem0,
            gen_below(gen_layout, bound + rem0 - remainder),
        decreases stretch_y@.len() - k,
    {
        let y_idx = stretch_y[k];
        // calculate stretch as a new fraction every time.
        // this makes a better distribution.
        let stretch = remainder / n;
        remainder = remainder - stretch;
        n = n - 1;
        let ghost lo = bound + rem0 - remainder - stretch;

        // stretch
        let mut area = gen_layout.widget(y_idx);
        let test_y = area.bottom();
        area.height = area.height + stretch;
        gen_layout.set_widget(y_idx, area);

        // shift everything after
        let len = gen_layout.area_len();
        let mut idx = y_idx + 1;
        while idx < len
            invariant
                gen_layout.wf(),
                same_but_areas(gen_layout, &g0),
                y_idx < idx <= gen_layout.widget_areas().len(),
                len == gen_layout.widget_areas().len(),
                lo + stretch <= u16::MAX,
                forall|j: int|
                    0 <= j < gen_layout.widget_areas().len() ==> (#[trigger] gen_layout.widget_areas()[j]).y
                        + gen_layout.widget_areas()[j].height <= lo + if y_idx <= j < idx {
                        stretch as int
                    } else {
                        0
                    },
                forall|j: int|
                    0 <= j < gen_layout.label_areas().len() ==> (#[trigger] gen_layout.label_areas()[j]).y
                        + gen_layout.label_areas()[j].height <= lo + if y_idx < j < idx {
                        stretch as int
                    } else {
                        0
                    },
                below(gen_layout.block_areas(), lo),
            decreases gen_layout.widget_areas().len() - idx,
        {
            let area = shift(gen_layout.widget(idx), test_y, stretch, Ghost(lo));
            gen_layout.set_widget(idx, area);
            let area = shift(gen_layout.label(idx), test_y, stretch, Ghost(lo));
            gen_layout.set_label(idx, area);
            idx = idx + 1;
        }

        // containers may be shifted or stretched.
        let mut b: usize = 0;
        while b < gen_layout.block_len()
            invariant
                gen_layout.wf(),
                same_but_areas(gen_layout, &g0),
                b <= gen_layout.block_areas().len(),
                lo + stretch <= u16::MAX,
                below(gen_layout.widget_areas(), lo + stretch),
                below(gen_layout.label_areas(), lo + stretch),
                forall|j: int|
                    0 <= j < gen_layout.block_areas().len() ==> (#[trigger] gen_layout.block_areas()[j]).y
                        + gen_layout.block_areas()[j].height <= lo + if j < b {
                        stretch as int
                    } else {
                        0
                    },
            decreases gen_layout.block_areas().len() - b,
        {
            let area = shift_or_stretch(gen_layout.block_area(b), test_y, stretch, Ghost(lo));
            gen_layout.set_block_area(b, area);
            b = b + 1;
        }
        k = k + 1;
    }
    stretch_y.clear();
}

/// Geometry of a block while the layout is built.
#[derive(Debug, Clone, Copy)]
struct BlockGeo {
    // padding due to block
    padding: Padding,
    // range into the widget list
    range_start: usize,
    range_end: usize,
    // calculated container area.
    area: Rect,
}

/// Sum of the top and bottom paddings of the blocks.
spec fn pad_total(gs: Seq<BlockGeo>) -> int
    decreases gs.len(),
{
    if gs.len() == 0 {
        0
    } else {
        pad_total(gs.drop_last()) + gs.last().padding.top + gs.last().padding.bottom
    }
}

/// Prefix sums of paddings grow.
proof fn lemma_pad_total_take(gs: Seq<BlockGeo>, i: int)
    requires
        0 <= i < gs.len(),
    ensures
        pad_total(gs.take(i + 1)) == pad_total(gs.take(i)) + gs[i].padding.top
            + gs[i].padding.bottom,
        pad_total(gs.take(i)) >= 0,
        pad_total(gs.take(i + 1)) <= pad_total(gs),
    decreases gs.len(),
{
    assert(gs.take(i + 1).drop_last() =~= gs.take(i));
    lemma_pad_total_nonneg(gs.take(i));
    if i + 1 == gs.len() {
        assert(gs.take(i + 1) =~= gs);
    } else {
        lemma_pad_total_take(gs.drop_last(), i);
        assert(gs.drop_last().take(i + 1) =~= gs.take(i + 1));
        assert(gs.drop_last().take(i) =~= gs.take(i));
        lemma_pad_total_nonneg(gs.drop_last());
        if i + 1 < gs.len() - 1 {
        } else {
            assert(gs.drop_last().take(i + 1) =~= gs.drop_last());
        }
    }
}

/// Padding sums are not negative.
proof fn lemma_pad_total_nonneg(gs: Seq<BlockGeo>)
    ensures
        pad_total(gs) >= 0,
    decreases gs.len(),
{
    if gs.len() > 0 {
        lemma_pad_total_nonneg(gs.drop_last());
    }
}

// open the given container
fn start_block(page: &mut Page, block: BlockGeo) -> (r: BlockGeo)
    requires
        old(page).top_padding + block.padding.top <= u16::MAX,
    ensures
        r.padding == block.padding,
        r.range_start == block.range_start,
        r.range_end == block.range_end,
        r.area.y == old(page).y,
        r.area.height == block.area.height,
        final(page).y <= old(page).y + block.padding.top,
        final(page).y >= old(page).y,
        final(page).top_padding == old(page).top_padding + block.padding.top,
        final(page).same_frame(*old(page)),
        final(page).bottom_padding == old(page).bottom_padding,
        final(page).bottom_padding_break == old(page).bottom_padding_break,
        final(page).effective_line_spacing == old(page).effective_line_spacing,
        r == (BlockGeo {
            area: Rect {
                x: old(page).x_pos.container_left,
                y: old(page).y,
                width: sat_sub(old(page).x_pos.container_right, old(page).x_pos.container_left),
                height: block.area.height,
            },
            ..block
        }),
        *final(page) == (Page {
            y: sat_add(old(page).y, block.padding.top),
            top_padding: (old(page).top_padding + block.padding.top) as u16,
            x_pos: XPositions {
                container_left: sat_add(old(page).x_pos.container_left, block.padding.left),
                container_right: sat_sub(old(page).x_pos.container_right, block.padding.right),
                ..old(page).x_pos
            },
            ..*old(page)
        }),
{
    let mut block = block;
    // adjust block
    block.area.x = page.x_pos.container_left;
    block.area.width = page.x_pos.container_right.saturating_sub(page.x_pos.container_left);
    block.area.y = page.y;

    // advance page
    page.y = page.y.saturating_add(block.padding.top);
    page.top_padding = page.top_padding + block.padding.top;
    page.x_pos.container_left = page.x_pos.container_left.saturating_add(block.padding.left);
    page.x_pos.container_right = page.x_pos.container_right.saturating_sub(block.padding.right);
    block
}

// account for the bottom padding of a block around the widget
fn widget_padding(page: &mut Page, idx: usize, block: &BlockGeo)
    requires
        old(page).bottom_padding_break + block.padding.bottom <= u16::MAX,
        old(page).bottom_padding + block.padding.bottom <= u16::MAX,
    ensures
        final(page).bottom_padding_break <= old(page).bottom_padding_break + block.padding.bottom,
        final(page).bottom_padding <= old(page).bottom_padding + block.padding.bottom,
        final(page).bottom_padding_break >= old(page).bottom_padding_break,
        final(page).bottom_padding >= old(page).bottom_padding,
        final(page).y == old(page).y,
        final(page).top_padding == old(page).top_padding,
        final(page).same_frame(*old(page)),
        final(page).x_pos == old(page).x_pos,
        final(page).effective_line_spacing == old(page).effective_line_spacing,
        *final(page) == (Page {
            bottom_padding_break: if block.range_end > idx && block.range_end - idx > 1 {
                (old(page).bottom_padding_break + block.padding.bottom) as u16
            } else {
                old(page).bottom_padding_break
            },
            bottom_padding: if block.range_end > idx && block.range_end - idx == 1 {
                (old(page).bottom_padding + block.padding.bottom) as u16
            } else {
                old(page).bottom_padding
            },
            ..*old(page)
        }),
{
    if block.range_end > idx && block.range_end - idx > 1 {
        page.bottom_padding_break = page.bottom_padding_break + block.padding.bottom;
    } else if block.range_end > idx && block.range_end - idx == 1 {
        page.bottom_padding = page.bottom_padding + block.padding.bottom;
    }
}

// close the given container
fn end_block(page: &mut Page, block: BlockGeo) -> (r: BlockGeo)
    ensures
        r.padding == block.padding,
        r.range_start == block.range_start,
        r.range_end == block.range_end,
        r.area.y == block.area.y,
        r.area.y + r.area.height <= if block.area.y >= final(page).y {
            block.area.y as int
        } else {
            final(page).y as int
        },
        final(page).y <= old(page).y + block.padding.bottom,
        final(page).y >= old(page).y,
        final(page).same_frame(*old(page)),
        final(page).top_padding == old(page).top_padding,
        final(page).bottom_padding == old(page).bottom_padding,
        final(page).bottom_padding_break == old(page).bottom_padding_break,
        final(page).effective_line_spacing == old(page).effective_line_spacing,
        *final(page) == (Page {
            y: sat_add(old(page).y, block.padding.bottom),
            x_pos: XPositions {
                container_left: sat_sub(old(page).x_pos.container_left, block.padding.left),
                container_right: sat_add(old(page).x_pos.container_right, block.padding.right),
                ..old(page).x_pos
            },
            ..*old(page)
        }),
        r == (BlockGeo {
            area: Rect { height: sat_sub(final(page).y, block.area.y), ..block.area },
            ..block
        }),
{
    let mut block = block;
    // advance page
    page.y = page.y.saturating_add(block.padding.bottom);
    page.x_pos.container_left = page.x_pos.container_left.saturating_sub(block.padding.left);
    page.x_pos.container_right = page.x_pos.container_right.saturating_add(block.padding.right);

    // adjust block
    block.area.height = page.y.saturating_sub(block.area.y);
    block
}

impl Page {
    /// Everything but the current position and the paddings is the same.
    spec fn same_frame(self, other: Page) -> bool {
        &&& self.page_border == other.page_border
        &&& self.full_width == other.full_width
        &&& self.flex == other.flex
        &&& self.max_left_padding == other.max_left_padding
        &&& self.max_right_padding == other.max_right_padding
        &&& self.max_label == other.max_label
        &&& self.max_widget == other.max_widget
        &&& self.height == other.height
        &&& self.top == other.top
        &&& self.bottom == other.bottom
        &&& self.columns == other.columns
        &&& self.column_spacing == other.column_spacing
        &&& self.spacing == other.spacing
        &&& self.line_spacing == other.line_spacing
        &&& self.page_no == other.page_no
        &&& self.page_start == other.page_start
        &&& self.page_end == other.page_end
    }
}

/// Is the label constraint one that the form keeps (no label by example)?
pub open spec fn is_measured(l: FormLabel) -> bool {
    !(l is Str) && !(l is String)
}

/// Heights of a stacked label and widget, reduced to fit `max_height`:
/// first the label down to what the widget leaves (at least 1), then the
/// widget down to what the label leaves (at least 1), then the label
/// away, then the widget to `max_height`.
pub open spec fn stacked_heights_spec(label_height: u16, widget_height: u16, max_height: u16) -> (u16, u16) {
    let l1 = if label_height + widget_height > max_height {
        if sat_sub(max_height, widget_height) > 1 { sat_sub(max_height, widget_height) } else { 1u16 }
    } else {
        label_height
    };
    let w1 = if l1 + widget_height > max_height {
        if sat_sub(max_height, l1) > 1 { sat_sub(max_height, l1) } else { 1u16 }
    } else {
        widget_height
    };
    let l2 = if l1 + w1 > max_height { 0u16 } else { l1 };
    let w2 = if l2 + w1 > max_height { max_height } else { w1 };
    (l2, w2)
}

/// Heights of a stacked label and widget, reduced to fit `max_height`.
fn stacked_heights(label_height: u16, widget_height: u16, max_height: u16) -> (r: (u16, u16))
    requires
        label_height + widget_height + 1 <= u16::MAX,
    ensures
        r == stacked_heights_spec(label_height, widget_height, max_height),
        r.0 + r.1 <= label_height + widget_height,
{
    let mut label_height = label_height;
    let mut widget_height = widget_height;
    if label_height + widget_height > max_height {
        label_height = if max_height.saturating_sub(widget_height) > 1 {
            max_height.saturating_sub(widget_height)
        } else {
            1
        };
    }
    if label_height + widget_height > max_height {
        widget_height = if max_height.saturating_sub(label_height) > 1 {
            max_height.saturating_sub(label_height)
        } else {
            1
        };
    }
    if label_height + widget_height > max_height {
        label_height = 0;
    }
    if label_height + widget_height > max_height {
        widget_height = max_height;
    }
    (label_height, widget_height)
}

/// Clamp the widget width to the widget column.
fn widget_column_width(w: u16, x_pos: &XPositions) -> (r: u16)
    ensures
        r == min_u16(w, x_pos.widget_width),
{
    if w < x_pos.widget_width {
        w
    } else {
        x_pos.widget_width
    }
}

/// The label and widget areas of a stacked pair, label above widget,
/// with the rows they take together.
spec fn areas_stacked_spec(page: Page, label: FormLabel, widget: FormWidget, max_height: u16) -> (Rect, Rect, u16) {
    let (lh, wh) = stacked_heights_spec(label_height(label), widget_height(widget), max_height);
    let xp = page.x_pos;
    let stretch_width = sat_sub(xp.widget_right, xp.widget_left);
    let total_stretch_width = sat_sub(xp.widget_right, xp.label_left);
    let la0 = match label {
        FormLabel::Empty => Rect::zero(),
        _ => Rect::spec_new(xp.label_left, page.y, xp.label_width, lh),
    };
    let la = match widget {
        FormWidget::Wide(_, _) => Rect { width: xp.total_width, ..la0 },
        FormWidget::WideStretchX(_, _) => Rect { width: total_stretch_width, ..la0 },
        FormWidget::WideStretchXY(_, _) => Rect { width: total_stretch_width, ..la0 },
        _ => la0,
    };
    let below = (page.y + lh) as u16;
    let wa = match widget {
        FormWidget::Empty => Rect::zero(),
        FormWidget::Width(w) => Rect::spec_new(xp.widget_left, page.y, min_u16(w, xp.widget_width), wh),
        FormWidget::Size(w, _) => Rect::spec_new(xp.widget_left, page.y, min_u16(w, xp.widget_width), wh),
        FormWidget::StretchY(w, _) => Rect::spec_new(xp.widget_left, page.y, min_u16(w, xp.widget_width), wh),
        FormWidget::Wide(_, _) => Rect::spec_new(xp.label_left, below, xp.total_width, wh),
        FormWidget::StretchX(_, _) => Rect::spec_new(xp.widget_left, page.y, stretch_width, wh),
        FormWidget::StretchXY(_, _) => Rect::spec_new(xp.widget_left, page.y, stretch_width, wh),
        FormWidget::WideStretchX(_, _) => Rect::spec_new(xp.label_left, below, total_stretch_width, wh),
        FormWidget::WideStretchXY(_, _) => Rect::spec_new(xp.label_left, below, total_stretch_width, wh),
    };
    (la, wa, (la.height + wa.height) as u16)
}

/// The label and widget areas of a pair side by side, with the rows they
/// take: the higher of the two.
spec fn areas_side_spec(page: Page, label: FormLabel, widget: FormWidget, max_height: u16) -> (Rect, Rect, u16) {
    let lh = min_u16(label_height(label), max_height);
    let wh = min_u16(widget_height(widget), max_height);
    let xp = page.x_pos;
    let stretch_width = sat_sub(xp.widget_right, xp.widget_left);
    let la = match label {
        FormLabel::Empty => Rect::zero(),
        _ => Rect::spec_new(xp.label_left, page.y, xp.label_width, lh),
    };
    let wa = match widget {
        FormWidget::Empty => Rect::zero(),
        FormWidget::Width(w) => Rect::spec_new(xp.widget_left, page.y, min_u16(w, xp.widget_width), wh),
        FormWidget::Size(w, _) => Rect::spec_new(xp.widget_left, page.y, min_u16(w, xp.widget_width), wh),
        FormWidget::StretchY(w, _) => Rect::spec_new(xp.widget_left, page.y, min_u16(w, xp.widget_width), wh),
        _ => Rect::spec_new(xp.widget_left, page.y, stretch_width, wh),
    };
    (la, wa, max_u16(la.height, wa.height))
}

/// Rows the next pair can take at most: what the page leaves below its
/// borders and paddings, or, where the pair must fit, what is left below
/// the current row.
spec fn pair_max_height(page: Page, must_fit: bool) -> u16 {
    if !must_fit {
        sat_sub(sat_sub(sat_sub(sat_sub(page.height, page.top), page.bottom), page.top_padding), page.bottom_padding)
    } else {
        sat_sub(sat_sub(sat_sub(page.height, (page.y - page.page_start) as u16), page.bottom), page.bottom_padding_break)
    }
}

/// A widget that is stacked below its label.
spec fn is_wide(widget: FormWidget) -> bool {
    widget is Wide || widget is WideStretchX || widget is WideStretchXY
}

/// Label above widget.
fn areas_stacked(page: &Page, label: &FormLabel, widget: FormWidget, max_height: u16) -> (r: (
    Rect,
    Rect,
    u16,
))
    requires
        page.y + label_height(*label) + widget_height(widget) + 1 <= u16::MAX,
    ensures
        r == areas_stacked_spec(*page, *label, widget, max_height),
        r.2 <= label_height(*label) + widget_height(widget),
        r.0.y + r.0.height <= page.y + label_height(*label) + widget_height(widget),
        r.1.y + r.1.height <= page.y + label_height(*label) + widget_height(widget),
{
    let (label_height, widget_height) = stacked_heights(
        match label {
            FormLabel::Empty => 0,
            FormLabel::Size(_, h) => *h,
            _ => 1,
        },
        match widget {
            FormWidget::Empty => 0,
            FormWidget::Width(_) => 1,
            FormWidget::Size(_, h) => h,
            FormWidget::StretchY(_, h) => h,
            FormWidget::Wide(_, h) => h,
            FormWidget::StretchX(_, h) => h,
            FormWidget::WideStretchX(_, h) => h,
            FormWidget::StretchXY(_, h) => h,
            FormWidget::WideStretchXY(_, h) => h,
        },
        max_height,
    );

    let stretch_width = page.x_pos.widget_right.saturating_sub(page.x_pos.widget_left);
    let total_stretch_width = page.x_pos.widget_right.saturating_sub(page.x_pos.label_left);

    let mut label_area = match label {
        FormLabel::Empty => Rect { x: 0, y: 0, width: 0, height: 0 },
        _ => Rect::new(page.x_pos.label_left, page.y, page.x_pos.label_width, label_height),
    };
    match widget {
        FormWidget::Wide(_, _) => label_area.width = page.x_pos.total_width,
        FormWidget::WideStretchX(_, _) => label_area.width = total_stretch_width,
        FormWidget::WideStretchXY(_, _) => label_area.width = total_stretch_width,
        _ => {},
    }

    let widget_area = match widget {
        FormWidget::Empty => Rect { x: 0, y: 0, width: 0, height: 0 },
        FormWidget::Width(w) | FormWidget::Size(w, _) | FormWidget::StretchY(w, _) => Rect::new(
            page.x_pos.widget_left,
            page.y,
            widget_column_width(w, &page.x_pos),
            widget_height,
        ),
        FormWidget::Wide(_, _) => Rect::new(
            page.x_pos.label_left,
            page.y + label_height,
            page.x_pos.total_width,
            widget_height,
        ),
        FormWidget::StretchX(_, _) | FormWidget::StretchXY(_, _) => Rect::new(
            page.x_pos.widget_left,
            page.y,
            stretch_width,
            widget_height,
        ),
        FormWidget::WideStretchX(_, _) | FormWidget::WideStretchXY(_, _) => Rect::new(
            page.x_pos.label_left,
            page.y + label_height,
            total_stretch_width,
            widget_height,
        ),
    };

    (label_area, widget_area, label_area.height + widget_area.height)
}

/// Label beside widget.
fn areas_side(page: &Page, label: &FormLabel, widget: FormWidget, max_height: u16) -> (r: (
    Rect,
    Rect,
    u16,
))
    requires
        page.y + label_height(*label) + widget_height(widget) <= u16::MAX,
    ensures
        r == areas_side_spec(*page, *label, widget, max_height),
        r.2 <= label_height(*label) + widget_height(widget),
        r.0.y + r.0.height <= page.y + label_height(*label) + widget_height(widget),
        r.1.y + r.1.height <= page.y + label_height(*label) + widget_height(widget),
{
    let label_height: u16 = match label {
        FormLabel::Empty => 0,
        FormLabel::Size(_, h) => *h,
        _ => 1,
    };
    let widget_height: u16 = match widget {
        FormWidget::Empty => 0,
        FormWidget::Width(_) => 1,
        FormWidget::Size(_, h) => h,
        FormWidget::StretchY(_, h) => h,
        FormWidget::Wide(_, h) => h,
        FormWidget::StretchX(_, h) => h,
        FormWidget::WideStretchX(_, h) => h,
        FormWidget::StretchXY(_, h) => h,
        FormWidget::WideStretchXY(_, h) => h,
    };
    let label_height = if label_height < max_height {
        label_height
    } else {
        max_height
    };
    let widget_height = if widget_height < max_height {
        widget_height
    } else {
        max_height
    };
    let stretch_width = page.x_pos.widget_right.saturating_sub(page.x_pos.widget_left);

    let label_area = match label {
        FormLabel::Empty => Rect { x: 0, y: 0, width: 0, height: 0 },
        _ => Rect::new(page.x_pos.label_left, page.y, page.x_pos.label_width, label_height),
    };

    let widget_area = match widget {
        FormWidget::Empty => Rect { x: 0, y: 0, width: 0, height: 0 },
        FormWidget::Width(w) | FormWidget::Size(w, _) | FormWidget::StretchY(w, _) => Rect::new(
            page.x_pos.widget_left,
            page.y,
            widget_column_width(w, &page.x_pos),
            widget_height,
        ),
        _ => Rect::new(page.x_pos.widget_left, page.y, stretch_width, widget_height),
    };

    (
        label_area,
        widget_area,
        if label_area.height > widget_area.height {
            label_area.height
        } else {
            widget_area.height
        },
    )
}

// calculate widget and label area.
// advance the page.y
fn areas_and_advance(page: &Page, label: &FormLabel, widget: FormWidget, must_fit: bool) -> (r: (
    Rect,
    Rect,
    u16,
))
    requires
        page.y + label_height(*label) + widget_height(widget) + 1 <= u16::MAX,
        page.y >= page.page_start,
    ensures
        r == if is_wide(widget) {
            areas_stacked_spec(*page, *label, widget, pair_max_height(*page, must_fit))
        } else {
            areas_side_spec(*page, *label, widget, pair_max_height(*page, must_fit))
        },
        r.2 <= label_height(*label) + widget_height(widget),
        r.0.y + r.0.height <= page.y + label_height(*label) + widget_height(widget),
        r.1.y + r.1.height <= page.y + label_height(*label) + widget_height(widget),
{
    // [label]
    // [widget]
    // vs
    // [label] [widget]
    let stacked = match widget {
        FormWidget::Wide(_, _) | FormWidget::WideStretchX(_, _) | FormWidget::WideStretchXY(
            _,
            _,
        ) => true,
        _ => false,
    };

    let max_height = if !must_fit {
        page.height.saturating_sub(page.top).saturating_sub(page.bottom).saturating_sub(
            page.top_padding,
        ).saturating_sub(page.bottom_padding)
    } else {
        page.height.saturating_sub(page.y - page.page_start).saturating_sub(
            page.bottom,
        ).saturating_sub(page.bottom_padding_break)
    };

    if stacked {
        areas_stacked(page, label, widget, max_height)
    } else {
        areas_side(page, label, widget, max_height)
    }
}

/// Rows the next widget can take at most: line spacing, paddings of
/// starting and ending blocks, label and widget.
spec fn widget_rows(page: Page, gs: Seq<BlockGeo>, label: FormLabel, widget: FormWidget) -> int {
    page.line_spacing + 2 * pad_total(gs) + label_height(label) + widget_height(widget)
}

/// Geometry of the blocks: the same paddings and ranges.
spec fn same_ranges(a: Seq<BlockGeo>, b: Seq<BlockGeo>) -> bool {
    &&& a.len() == b.len()
    &&& forall|j: int|
        0 <= j < a.len() ==> (#[trigger] a[j]).padding == b[j].padding && a[j].range_start
            == b[j].range_start && a[j].range_end == b[j].range_end
}

/// All blocks start at row `bound` at the latest.
spec fn starts_below(gs: Seq<BlockGeo>, bound: int) -> bool {
    forall|j: int| 0 <= j < gs.len() ==> (#[trigger] gs[j]).area.y <= bound
}

/// All output blocks refer to a block and end at row `bound` at the latest.
spec fn out_below(out: Seq<(usize, Rect)>, n: int, bound: int) -> bool {
    forall|j: int|
        0 <= j < out.len() ==> (#[trigger] out[j]).0 < n && out[j].1.y + out[j].1.height
            <= bound
}

// add next widget
fn next_widget(
    page: &mut Page,
    geos: &mut Vec<BlockGeo>,
    label: &FormLabel,
    widget: FormWidget,
    idx: usize,
    must_fit: bool,
    blocks_out: &mut Vec<(usize, Rect)>,
    Ghost(bound): Ghost<int>,
) -> (r: (Rect, Rect))
    requires
        is_measured(*label),
        idx < usize::MAX,
        old(page).effective_line_spacing <= old(page).line_spacing,
        old(page).y >= old(page).page_start,
        old(page).y + widget_rows(*old(page), old(geos)@, *label, widget) + 1 <= u16::MAX,
        old(page).y + widget_rows(*old(page), old(geos)@, *label, widget) <= bound,
        old(page).bottom_padding_break + pad_total(old(geos)@) <= u16::MAX,
        pad_total(old(geos)@) <= u16::MAX,
        starts_below(old(geos)@, bound),
        out_below(old(blocks_out)@, old(geos)@.len() as int, bound),
    ensures
        final(page).y <= old(page).y + widget_rows(*old(page), old(geos)@, *label, widget),
        final(page).y >= old(page).y,
        final(page).bottom_padding_break <= old(page).bottom_padding_break + pad_total(
            old(geos)@,
        ),
        final(page).same_frame(*old(page)),
        final(page).effective_line_spacing == old(page).line_spacing,
        same_ranges(final(geos)@, old(geos)@),
        starts_below(final(geos)@, bound),
        out_below(final(blocks_out)@, old(geos)@.len() as int, bound),
        final(blocks_out)@.len() >= old(blocks_out)@.len(),
        final(blocks_out)@.take(old(blocks_out)@.len() as int) == old(blocks_out)@,
        r.0.y + r.0.height <= bound,
        r.1.y + r.1.height <= bound,
{
    let ghost g0 = geos@;
    let ghost p0 = *page;
    let ghost out0 = blocks_out@;
    // line spacing
    page.y = page.y.saturating_add(page.effective_line_spacing);
    page.effective_line_spacing = page.line_spacing;
    page.top_padding = 0;
    page.bottom_padding = 0;
    let ghost y1 = page.y as int;
    proof {
        lemma_pad_total_nonneg(g0);
        assert(g0.take(0) =~= Seq::<BlockGeo>::empty());
    }

    // start container
    let mut i: usize = 0;
    while i < geos.len()
        invariant
            i <= geos@.len(),
            same_ranges(geos@, g0),
            starts_below(geos@, bound),
            page.same_frame(p0),
            page.effective_line_spacing == p0.line_spacing,
            y1 <= p0.y + p0.line_spacing,
            y1 <= page.y <= y1 + pad_total(g0.take(i as int)),
            page.top_padding <= pad_total(g0.take(i as int)),
            page.bottom_padding <= pad_total(g0.take(i as int)),
            p0.bottom_padding_break <= page.bottom_padding_break <= p0.bottom_padding_break
                + pad_total(g0.take(i as int)),
            pad_total(g0.take(i as int)) <= pad_total(g0),
            pad_total(g0) <= u16::MAX,
            p0.bottom_padding_break + pad_total(g0) <= u16::MAX,
            p0.y + widget_rows(p0, g0, *label, widget) <= bound,
            page.y <= bound,
        decreases geos@.len() - i,
    {
        proof {
            lemma_pad_total_take(g0, i as int);
        }
        let mut g = geos[i];
        if g.range_start == idx {
            g = start_block(page, g);
        }
        if g.range_start <= idx {
            widget_padding(page, idx, &g);
        }
        geos.set(i, g);
        i = i + 1;
    }
    proof {
        assert(g0.take(g0.len() as int) =~= g0);
    }

    // get areas + advance
    let (label_area, widget_area, advance) = areas_and_advance(page, label, widget, must_fit);
    page.y = page.y.saturating_add(advance);
    let ghost y2 = page.y as int;

    // end and push containers
    let mut i: usize = geos.len();
    while i > 0
        invariant
            i <= geos@.len(),
            same_ranges(geos@, g0),
            starts_below(geos@, bound),
            page.same_frame(p0),
            page.effective_line_spacing == p0.line_spacing,
            idx < usize::MAX,
            y2 <= page.y <= y2 + pad_total(g0) - pad_total(g0.take(i as int)),
            p0.bottom_padding_break <= page.bottom_padding_break <= p0.bottom_padding_break
                + pad_total(g0),
            y2 + pad_total(g0) <= bound,
            0 <= pad_total(g0.take(i as int)) <= pad_total(g0),
            blocks_out@.len() >= out0.len(),
            blocks_out@.take(out0.len() as int) == out0,
            out_below(blocks_out@, g0.len() as int, bound),
        decreases i,
    {
        i = i - 1;
        proof {
            lemma_pad_total_take(g0, i as int);
        }
        if idx + 1 == geos[i].range_end {
            let g = end_block(page, geos[i]);
            geos.set(i, g);
            blocks_out.push((i, g.area));
            proof {
                assert(blocks_out@.take(out0.len() as int) =~= out0);
            }
        }
    }
    (label_area, widget_area)
}

impl Page {
    /// The page settings that stay the same from page to page.
    spec fn same_settings(self, other: Page) -> bool {
        &&& self.page_border == other.page_border
        &&& self.full_width == other.full_width
        &&& self.flex == other.flex
        &&& self.max_left_padding == other.max_left_padding
        &&& self.max_right_padding == other.max_right_padding
        &&& self.max_label == other.max_label
        &&& self.max_widget == other.max_widget
        &&& self.height == other.height
        &&& self.top == other.top
        &&& self.bottom == other.bottom
        &&& self.columns == other.columns
        &&& self.column_spacing == other.column_spacing
        &&& self.spacing == other.spacing
        &&& self.line_spacing == other.line_spacing
    }
}

/// The same paddings and range ends; range starts may have moved.
spec fn same_pads(a: Seq<BlockGeo>, b: Seq<BlockGeo>) -> bool {
    &&& a.len() == b.len()
    &&& forall|j: int|
        0 <= j < a.len() ==> (#[trigger] a[j]).padding == b[j].padding && a[j].range_end
            == b[j].range_end
}

/// Equal paddings give equal padding sums.
proof fn lemma_pad_total_same(a: Seq<BlockGeo>, b: Seq<BlockGeo>)
    requires
        same_pads(a, b),
    ensures
        pad_total(a) == pad_total(b),
    decreases a.len(),
{
    if a.len() > 0 {
        assert(same_pads(a.drop_last(), b.drop_last()));
        lemma_pad_total_same(a.drop_last(), b.drop_last());
    }
}

// do a page-break
fn page_break<W, B: Clone>(
    geos: &mut Vec<BlockGeo>,
    page: &mut Page,
    idx: usize,
    stretch: &mut Vec<usize>,
    blocks_out: &mut Vec<(usize, Rect)>,
    gen_layout: &mut GenericLayout<W, B>,
    payloads: &Vec<Option<B>>,
    Ghost(bound): Ghost<int>,
) where W: Eq + Hash + Clone
    requires
        old(gen_layout).wf(),
        gen_below(old(gen_layout), bound),
        old(blocks_out)@.len() == 0,
        payloads@.len() == old(geos)@.len(),
        starts_below(old(geos)@, bound),
        old(page).y + pad_total(old(geos)@) <= bound,
        pad_total(old(geos)@) <= u16::MAX,
        old(page).y >= old(page).page_start,
        old(page).page_end <= old(page).page_start + old(page).height,
        bound + old(page).height <= u16::MAX,
        forall|k: int|
            0 <= k < old(stretch)@.len() ==> #[trigger] old(stretch)@[k] < old(
                gen_layout,
            ).widget_areas().len(),
        old(stretch)@.len() <= u16::MAX,
        old(page).page_no + 1 <= u16::MAX,
        old(page).x_ok(),
    ensures
        final(gen_layout).wf(),
        gen_below(final(gen_layout), bound + old(page).height),
        final(gen_layout).keys() == old(gen_layout).keys(),
        final(gen_layout).key_map() == old(gen_layout).key_map(),
        final(gen_layout).labels() == old(gen_layout).labels(),
        final(gen_layout).widget_areas().len() == old(gen_layout).widget_areas().len(),
        final(gen_layout).area_view() == old(gen_layout).area_view(),
        final(gen_layout).page_size_view() == old(gen_layout).page_size_view(),
        final(gen_layout).page_count_view() == old(gen_layout).page_count_view(),
        final(stretch)@.len() == 0,
        final(blocks_out)@.len() == 0,
        same_pads(final(geos)@, old(geos)@),
        starts_below(final(geos)@, bound),
        final(page).same_settings(*old(page)),
        final(page).page_no == old(page).page_no + 1,
        final(page).page_start == if (old(page).page_no + 1) * old(page).height <= u16::MAX {
            (old(page).page_no + 1) * old(page).height
        } else {
            u16::MAX as int
        },
        final(page).page_end <= final(page).page_start + final(page).height,
        final(page).y >= final(page).page_start,
        final(page).y <= final(page).page_start + final(page).top,
        final(page).bottom_padding_break == 0,
        final(page).effective_line_spacing == 0,
{
    let ghost g0 = geos@;
    let ghost p0 = *page;
    proof {
        lemma_pad_total_nonneg(g0);
        assert(g0.take(g0.len() as int) =~= g0);
    }
    // close and push containers
    // reverse order closes from innermost to outermost container.
    let mut i: usize = geos.len();
    while i > 0
        invariant
            i <= geos@.len(),
            same_pads(geos@, g0),
            starts_below(geos@, bound),
            page.same_frame(p0),
            page.bottom_padding_break == p0.bottom_padding_break,
            page.effective_line_spacing == p0.effective_line_spacing,
            p0.y <= page.y <= p0.y + pad_total(g0) - pad_total(g0.take(i as int)),
            p0.y + pad_total(g0) <= bound,
            0 <= pad_total(g0.take(i as int)) <= pad_total(g0),
            out_below(blocks_out@, g0.len() as int, bound),
        decreases i,
    {
        i = i - 1;
        proof {
            lemma_pad_total_take(g0, i as int);
        }
        let g = geos[i];
        if idx > g.range_start && idx < g.range_end {
            let mut g = end_block(page, g);
            blocks_out.push((i, g.area));
            // restart on next page
            g.range_start = idx;
            geos.set(i, g);
        }
    }
    // pop reverts the ordering for render
    while blocks_out.len() > 0
        invariant
            gen_layout.wf(),
            gen_below(gen_layout, bound),
            gen_layout.keys() == old(gen_layout).keys(),
            gen_layout.key_map() == old(gen_layout).key_map(),
            gen_layout.labels() == old(gen_layout).labels(),
            gen_layout.widget_areas().len() == old(gen_layout).widget_areas().len(),
            gen_layout.area_view() == old(gen_layout).area_view(),
            gen_layout.page_size_view() == old(gen_layout).page_size_view(),
            gen_layout.page_count_view() == old(gen_layout).page_count_view(),
            out_below(blocks_out@, g0.len() as int, bound),
            payloads@.len() == g0.len(),
        decreases blocks_out@.len(),
    {
        let (b, area) = blocks_out.pop().unwrap();
        gen_layout.add_block(area, payloads[b].clone());
    }

    // modify layout to add y-stretch
    adjust_y_stretch(page, stretch, gen_layout, Ghost(bound));

    // advance
    page.page_no = page.page_no + 1;

    let column = page.page_no % page.columns;
    let mirror = (page.page_no / page.columns) % 2 == 1;

    page.page_start = match page.page_no.checked_mul(page.height) {
        Some(v) => v,
        None => u16::MAX,
    };
    page.page_end = page.page_start.saturating_add(page.height.saturating_sub(page.bottom));
    page.x_pos = XPositions::new(page, column, mirror);
    page.y = page.page_start.saturating_add(page.top);

    page.effective_line_spacing = 0;
    page.top_padding = 0;
    page.bottom_padding = 0;
    page.bottom_padding_break = 0;
}

/// The loop state of the form layout is consistent after `idx` widgets:
/// the page has the fixed settings of `p0`, at most two page breaks
/// happened per widget, the position lies within the rows used so far
/// (`bk`), and all areas end within the bound for the current page.
spec fn state_ok<W, B>(
    page: Page,
    p0: Page,
    geos: Seq<BlockGeo>,
    g0: Seq<BlockGeo>,
    stretch: Seq<usize>,
    out: Seq<(usize, Rect)>,
    gen_layout: &GenericLayout<W, B>,
    idx: int,
    hh: int,
    bk: int,
    t: int,
    endless: bool,
) -> bool where W: Eq + Hash + Clone {
    &&& page.same_settings(p0)
    &&& p0.x_ok()
    &&& page.page_no <= 2 * idx
    &&& page.page_start == page.page_no * hh
    &&& page.page_end <= page.page_start + page.height
    &&& page.page_start <= page.y <= page.page_no * hh + bk
    &&& page.effective_line_spacing <= page.line_spacing
    &&& page.bottom_padding_break <= idx * t
    &&& (endless ==> page.page_no == 0 && stretch.len() == 0 && hh == 0)
    &&& (!endless ==> hh == page.height)
    &&& same_pads(geos, g0)
    &&& 0 <= pad_total(g0) <= t
    &&& starts_below(geos, (2 * page.page_no + 1) * hh + bk + t)
    &&& out.len() == 0
    &&& gen_layout.wf()
    &&& gen_below(gen_layout, (2 * page.page_no + 1) * hh + bk + t)
    &&& gen_layout.widget_areas().len() == idx
    &&& stretch.len() <= idx
    &&& forall|k: int| 0 <= k < stretch.len() ==> #[trigger] stretch[k] < idx
}

/// `a <= b` scales with a non-negative factor.
proof fn lemma_mul_le(a: int, b: int, h: int)
    requires
        a <= b,
        h >= 0,
    ensures
        a * h <= b * h,
{
    assert(a * h <= b * h) by (nonlinear_arith)
        requires
            a <= b,
            h >= 0,
    ;
}

/// One step of the form layout: place widget `idx`. Breaks the page before
/// it if it doesn't fit and after it if asked to.
fn place_widget<W, B: Clone>(
    page: &mut Page,
    geos: &mut Vec<BlockGeo>,
    stretch: &mut Vec<usize>,
    blocks_out: &mut Vec<(usize, Rect)>,
    gen_layout: &mut GenericLayout<W, B>,
    payloads: &Vec<Option<B>>,
    w: WidgetDef<W>,
    idx: usize,
    break_after: bool,
    endless: bool,
    Ghost(p0): Ghost<Page>,
    Ghost(g0): Ghost<Seq<BlockGeo>>,
    Ghost(hh): Ghost<int>,
    Ghost(bk): Ghost<int>,
    Ghost(t): Ghost<int>,
    Ghost(n): Ghost<int>,
    Ghost(bn): Ghost<int>,
) where W: Eq + Hash + Clone
    requires
        state_ok(
            *old(page),
            p0,
            old(geos)@,
            g0,
            old(stretch)@,
            old(blocks_out)@,
            old(gen_layout),
            idx as int,
            hh,
            bk,
            t,
            endless,
        ),
        payloads@.len() == g0.len(),
        is_measured(w.label),
        idx < n,
        2 * n + 2 <= u16::MAX,
        bk >= p0.top,
        bk >= idx * (t + 1),
        bk + p0.line_spacing + 2 * t + label_height(w.label) + widget_height(w.widget) + 1 <= bn,
        (4 * n + 2) * hh + bn + t + 1 <= u16::MAX,
        t >= 0,
        hh >= 0,
    ensures
        state_ok(
            *final(page),
            p0,
            final(geos)@,
            g0,
            final(stretch)@,
            final(blocks_out)@,
            final(gen_layout),
            idx + 1,
            hh,
            bk + p0.line_spacing + 2 * t + label_height(w.label) + widget_height(w.widget) + 1,
            t,
            endless,
        ),
        final(gen_layout).keys().drop_last() == old(gen_layout).keys(),
        cloned(w.id, final(gen_layout).keys().last()),
        final(gen_layout).labels() == old(gen_layout).labels().push(w.label_str),
        final(gen_layout).area_view() == old(gen_layout).area_view(),
        final(gen_layout).page_size_view() == old(gen_layout).page_size_view(),
        final(gen_layout).page_count_view() == old(gen_layout).page_count_view(),
{
    let ghost bnext = bk + p0.line_spacing + 2 * t + label_height(w.label) + widget_height(
        w.widget,
    ) + 1;
    let ghost keys0 = gen_layout.keys();
    let ghost labels0 = gen_layout.labels();
    let ghost p_start = *page;
    let ghost w0 = w;
    proof {
        lemma_pad_total_same(geos@, g0);
        lemma_mul_le(p_start.page_no as int, 4 * n + 2, hh);
        lemma_mul_le(p_start.page_no as int, (2 * p_start.page_no + 1) as int, hh);
        lemma_mul_le(2 * p_start.page_no + 2, 4 * n + 2, hh);
        lemma_mul_le(idx as int, n, t);
        assert((idx + 1) * t == idx * t + t) by (nonlinear_arith);
        assert(idx * (t + 1) >= idx * t) by (nonlinear_arith)
            requires
                idx >= 0,
                t >= 0,
        ;
    }
    let bound_here = Ghost((2 * p_start.page_no + 1) * hh + bnext + t);

    // safe point
    let saved_page = *page;

    let (mut label_area, mut widget_area) = next_widget(
        page,
        geos,
        &w.label,
        w.widget,
        idx,
        false,
        blocks_out,
        bound_here,
    );

    proof {
        assert(same_pads(geos@, g0));
        lemma_pad_total_same(geos@, g0);
    }

    // page overflow induces page-break
    if !endless && page.y.saturating_add(page.bottom_padding_break) > page.page_end {
        // reset safe-point
        *page = saved_page;
        // any container areas are invalid
        blocks_out.clear();
        proof {
            assert((2 * p_start.page_no + 1) * hh + hh == (2 * p_start.page_no + 2) * hh)
                by (nonlinear_arith);
        }
        // page-break
        page_break(geos, page, idx, stretch, blocks_out, gen_layout, payloads, bound_here);
        proof {
            lemma_pad_total_same(geos@, g0);
            lemma_mul_le(
                (p_start.page_no + 1) as int,
                (2 * (p_start.page_no + 1) + 1) as int,
                hh,
            );
            assert((p_start.page_no + 1) * hh <= (4 * n + 2) * hh) by {
                lemma_mul_le((p_start.page_no + 1) as int, 4 * n + 2, hh);
            }
            assert((2 * (p_start.page_no + 1) + 1) * hh == (2 * p_start.page_no + 1) * hh + 2
                * hh) by (nonlinear_arith);
        }
        // redo current widget
        let r = next_widget(
            page,
            geos,
            &w.label,
            w.widget,
            idx,
            true,
            blocks_out,
            Ghost((2 * (p_start.page_no + 1) + 1) * hh + bnext + t),
        );
        label_area = r.0;
        widget_area = r.1;
    }
    let ghost p_mid = *page;

    // remember stretch widget.
    if !endless && w.widget.is_stretch_y() {
        stretch.push(gen_layout.area_len());
    }

    // add label + widget
    let WidgetDef { id, label: _, label_str, widget: _ } = w;
    gen_layout.add(id, widget_area, label_str, label_area);

    // pop reverts the ordering for render
    while blocks_out.len() > 0
        invariant
            gen_layout.wf(),
            gen_below(gen_layout, (2 * p_mid.page_no + 1) * hh + bnext + t),
            gen_layout.keys().drop_last() == keys0,
            cloned(w0.id, gen_layout.keys().last()),
            gen_layout.labels() == labels0.push(w0.label_str),
            gen_layout.widget_areas().len() == idx + 1,
            gen_layout.area_view() == old(gen_layout).area_view(),
            gen_layout.page_size_view() == old(gen_layout).page_size_view(),
            gen_layout.page_count_view() == old(gen_layout).page_count_view(),
            out_below(blocks_out@, g0.len() as int, (2 * p_mid.page_no + 1) * hh + bnext + t),
            payloads@.len() == g0.len(),
        decreases blocks_out@.len(),
    {
        let (b, area) = blocks_out.pop().unwrap();
        gen_layout.add_block(area, payloads[b].clone());
    }

    // page-break after widget
    if !endless && break_after {
        proof {
            lemma_pad_total_same(geos@, g0);
            lemma_mul_le(p_mid.page_no as int, (2 * p_mid.page_no + 1) as int, hh);
            lemma_mul_le(2 * p_mid.page_no + 2, 4 * n + 2, hh);
            lemma_mul_le(
                (p_mid.page_no + 1) as int,
                (2 * (p_mid.page_no + 1) + 1) as int,
                hh,
            );
            assert((2 * (p_mid.page_no + 1) + 1) * hh == (2 * p_mid.page_no + 1) * hh + 2 * hh)
                by (nonlinear_arith);
            assert((2 * p_mid.page_no + 1) * hh + hh == (2 * p_mid.page_no + 2) * hh)
                by (nonlinear_arith);
            lemma_mul_le((p_mid.page_no + 1) as int, 4 * n + 2, hh);
        }
        page_break(
            geos,
            page,
            idx + 1,
            stretch,
            blocks_out,
            gen_layout,
            payloads,
            Ghost((2 * p_mid.page_no + 1) * hh + bnext + t),
        );
    }
}

/// Rows that the first `k` widgets can take at most, with `per` rows of
/// line spacing and block padding for each.
pub open spec fn rows_before<W>(ws: Seq<WidgetDef<W>>, k: int, per: int) -> int
    decreases k,
{
    if k <= 0 {
        0
    } else {
        rows_before(ws, k - 1, per) + per + label_height(ws[k - 1].label) + widget_height(
            ws[k - 1].widget,
        ) + 1
    }
}

/// Sum of the top and bottom paddings of the blocks.
pub open spec fn block_pads<B>(bs: Seq<BlockDef<B>>) -> int
    decreases bs.len(),
{
    if bs.len() == 0 {
        0
    } else {
        block_pads(bs.drop_last()) + bs.last().padding.top + bs.last().padding.bottom
    }
}

/// Rows the page breaks may move things down: four page heights per
/// widget and two more; none for an endless layout.
pub open spec fn break_rows<W, B>(l: &LayoutForm<W, B>, height: u16, endless: bool) -> int {
    if endless {
        0
    } else {
        (4 * l.widgets@.len() + 2) * height
    }
}

/// All rows of the layout fit the cell coordinates: the top border, every
/// widget at its preferred height with line spacing and all block
/// paddings, and the rows page breaks may add, sum up to less than
/// `u16::MAX`; and there are few enough widgets to number the pages.
pub open spec fn y_fits<W, B>(l: &LayoutForm<W, B>, height: u16, endless: bool) -> bool {
    let n = l.widgets@.len() as int;
    let t = block_pads(l.blocks@);
    &&& 2 * n + 2 <= u16::MAX
    &&& break_rows(l, height, endless) + l.page_border.top + rows_before(
        l.widgets@,
        n,
        l.line_spacing + 2 * t,
    ) + t + 1 <= u16::MAX
}

/// Rows before are monotone and large enough.
proof fn lemma_rows_before<W>(ws: Seq<WidgetDef<W>>, j: int, k: int, per: int)
    requires
        0 <= j <= k,
        per >= 0,
    ensures
        rows_before(ws, j, per) <= rows_before(ws, k, per),
        rows_before(ws, k, per) >= k * (per + 1),
    decreases k,
{
    if k > 0 {
        let jj = if j < k {
            j
        } else {
            k - 1
        };
        lemma_rows_before(ws, jj, k - 1, per);
        assert(rows_before(ws, k, per) == rows_before(ws, k - 1, per) + per + label_height(
            ws[k - 1].label,
        ) + widget_height(ws[k - 1].widget) + 1);
        assert(k * (per + 1) == (k - 1) * (per + 1) + per + 1) by (nonlinear_arith);
    } else {
        assert(k * (per + 1) == 0) by (nonlinear_arith)
            requires
                k == 0,
        ;
    }
}

/// Block paddings are not negative.
proof fn lemma_block_pads_nonneg<B>(bs: Seq<BlockDef<B>>)
    ensures
        block_pads(bs) >= 0,
    decreases bs.len(),
{
    if bs.len() > 0 {
        lemma_block_pads_nonneg(bs.drop_last());
    }
}

/// Are the blocks squeezed to their side borders on pages of this height?
pub open spec fn spec_blocks_squeezed(page_height: u16) -> bool {
    page_height != u16::MAX && page_height < 3
}

/// Are the blocks squeezed on pages of this height?
///
/// On pages lower than 3 rows blocks lose their top and bottom border:
/// the layout counts no top or bottom padding for them, and the borders
/// themselves are to be removed where the blocks are drawn.
pub fn blocks_squeezed(page_height: u16) -> (r: bool)
    ensures
        r == spec_blocks_squeezed(page_height),
{
    page_height != u16::MAX && page_height < 3
}

/// Does the list of page breaks hold `idx`?
fn has_break(breaks: &Vec<usize>, idx: usize) -> (r: bool)
    ensures
        r == breaks@.contains(idx),
{
    let mut i: usize = 0;
    while i < breaks.len()
        invariant
            i <= breaks@.len(),
            forall|j: int| 0 <= j < i ==> breaks@[j] != idx,
        decreases breaks@.len() - i,
    {
        if breaks[i] == idx {
            return true;
        }
        i = i + 1;
    }
    false
}

impl<W, B> LayoutForm<W, B> {
    /// Label, spacing and widget widths of a page: reduced, if the column
    /// is too narrow, first in the spacing, then label and widget down to
    /// 5 columns, then down to nothing.
    fn adjusted_widths(&self, page_size: Size) -> (r: (u16, u16, u16))
        requires
            x_fits(self, page_size.width),
        ensures
            r == adjusted_widths_spec(self, page_size.width),
            r.0 <= self.max_label,
            r.1 <= self.spacing,
            r.2 <= self.max_widget,
    {
        let layout_width = page_size.width.saturating_sub(self.page_border.left).saturating_sub(
            self.page_border.right,
        );
        let column_width = (layout_width / self.columns).saturating_sub(self.column_spacing);

        proof {
            let q = nominal_width(self) + self.column_spacing;
            assert(self.columns * q >= q) by (nonlinear_arith)
                requires
                    self.columns >= 1,
                    q >= 0,
            ;
        }
        let nominal = self.max_left_padding + self.max_label + self.spacing + self.max_widget
            + self.max_right_padding;

        if nominal > column_width {
            shrink(self.max_label, self.spacing, self.max_widget, nominal - column_width)
        } else {
            (self.max_label, self.spacing, self.max_widget)
        }
    }
}

impl Page {
    /// First page of the layout.
    fn new<W, B>(layout: &LayoutForm<W, B>, page_size: Size) -> (r: Page)
        requires
            layout.wf(),
            x_fits(layout, page_size.width),
        ensures
            r.x_ok(),
            r.page_no == 0,
            r.page_start == 0,
            r.page_end <= r.height,
            r.y == r.top,
            r.effective_line_spacing == 0,
            r.bottom_padding_break == 0,
            r.height == page_size.height,
            r.top == layout.page_border.top,
            r.line_spacing == layout.line_spacing,
    {
        let (max_label, spacing, max_widget) = layout.adjusted_widths(page_size);

        let mut s = Page {
            page_border: layout.page_border,
            full_width: page_size.width,
            flex: layout.flex,
            max_left_padding: layout.max_left_padding,
            max_right_padding: layout.max_right_padding,
            max_label,
            max_widget,
            height: page_size.height,
            top: layout.page_border.top,
            bottom: layout.page_border.bottom,
            columns: layout.columns,
            column_spacing: layout.column_spacing,
            spacing,
            line_spacing: layout.line_spacing,
            page_no: 0,
            page_start: 0,
            page_end: page_size.height.saturating_sub(layout.page_border.bottom),
            y: layout.page_border.top,
            top_padding: 0,
            bottom_padding: 0,
            bottom_padding_break: 0,
            effective_line_spacing: 0,
            x_pos: XPositions {
                label_left: 0,
                label_width: 0,
                widget_left: 0,
                widget_width: 0,
                widget_right: 0,
                container_left: 0,
                container_right: 0,
                total_width: 0,
            },
        };
        proof {
            let a = s.max_left_padding + s.max_label + s.spacing + s.max_widget
                + s.max_right_padding + s.column_spacing;
            let b = nominal_width(layout) + layout.column_spacing;
            lemma_mul_le(a, b, s.columns as int);
            assert(a * s.columns == s.columns * a) by (nonlinear_arith);
            assert(b * s.columns == s.columns * b) by (nonlinear_arith);
        }
        s.x_pos = XPositions::new(&s, 0, false);
        s
    }
}

/// Sums of block paddings over prefixes.
proof fn lemma_block_pads_take<B>(bs: Seq<BlockDef<B>>, i: int)
    requires
        0 <= i < bs.len(),
    ensures
        block_pads(bs.take(i + 1)) == block_pads(bs.take(i)) + bs[i].padding.top
            + bs[i].padding.bottom,
{
    assert(bs.take(i + 1).drop_last() =~= bs.take(i));
}

/// Label texts of the widgets.
pub open spec fn label_strs<W>(ws: Seq<WidgetDef<W>>) -> Seq<Option<String>> {
    ws.map_values(|w: WidgetDef<W>| w.label_str)
}

/// Calculate the layout for the given page size.
fn build_layout<W, B: Clone>(layout: LayoutForm<W, B>, page_size: Size, endless: bool) -> (r:
    GenericLayout<W, B>) where W: Eq + Hash + Clone
    requires
        layout.wf(),
        x_fits(&layout, page_size.width),
        y_fits(&layout, page_size.height, endless),
    ensures
        r.wf(),
        r.keys().len() == layout.widgets@.len(),
        forall|i: int|
            0 <= i < layout.widgets@.len() ==> cloned(
                #[trigger] layout.widgets@[i].id,
                r.keys()[i],
            ),
        r.labels() == label_strs(layout.widgets@),
        r.area_view() == Rect::zero(),
        r.page_size_view() == page_size,
        r.page_count_view() >= 1,
        endless ==> r.page_count_view() == 1,
{
    let ghost ws = layout.widgets@;
    let ghost bs = layout.blocks@;
    let ghost n = ws.len() as int;
    let ghost t = block_pads(bs);
    let ghost hh: int = if endless {
        0
    } else {
        page_size.height as int
    };
    let ghost per = layout.line_spacing + 2 * t;

    let mut gen_layout: GenericLayout<W, B> = GenericLayout::new();
    gen_layout.set_page_size(page_size);

    let page0 = Page::new(&layout, page_size);

    // clip blocks if necessary
    let squeezed = blocks_squeezed(page_size.height);
    let mut geos: Vec<BlockGeo> = Vec::new();
    let mut payloads: Vec<Option<B>> = Vec::new();
    let mut i: usize = 0;
    proof {
        lemma_block_pads_nonneg(bs);
        assert(bs.take(0) =~= Seq::<BlockDef<B>>::empty());
        assert(geos@ =~= Seq::<BlockGeo>::empty());
    }
    while i < layout.blocks.len()
        invariant
            i <= bs.len(),
            layout.blocks@ == bs,
            geos@.len() == i,
            payloads@.len() == i,
            0 <= pad_total(geos@) <= block_pads(bs.take(i as int)),
            starts_below(geos@, 0),
        decreases bs.len() - i,
    {
        proof {
            lemma_block_pads_take(bs, i as int);
        }
        let b = &layout.blocks[i];
        let mut padding = b.padding;
        if squeezed && b.block.is_some() {
            padding.top = 0;
            padding.bottom = 0;
        }
        let ghost before = geos@;
        geos.push(
            BlockGeo {
                padding,
                range_start: b.range_start,
                range_end: b.range_end,
                area: Rect { x: 0, y: 0, width: 0, height: 0 },
            },
        );
        proof {
            assert(geos@.drop_last() =~= before);
        }
        payloads.push(b.block.clone());
        i = i + 1;
    }
    proof {
        assert(bs.take(bs.len() as int) =~= bs);
    }
    let ghost g0 = geos@;

    let LayoutForm { widgets, page_breaks, .. } = layout;
    let mut widgets = widgets;
    let count = widgets.len();

    let mut page = page0;
    let mut stretch: Vec<usize> = Vec::new();
    let mut blocks_out: Vec<(usize, Rect)> = Vec::new();
    let mut idx: usize = 0;
    proof {
        lemma_rows_before(ws, 0, n, per);
        lemma_mul_le(0, 4 * n + 2, hh);
        assert(ws.subrange(0, n) =~= ws);
        assert(gen_layout.keys() =~= Seq::<W>::empty());
        assert(label_strs(ws).take(0) =~= Seq::<Option<String>>::empty());
        assert(0 * hh == 0) by (nonlinear_arith);
        assert(0 * t == 0) by (nonlinear_arith);
        assert((2 * 0 + 1) * hh == hh) by (nonlinear_arith);
        assert(same_pads(geos@, g0));
        assert(starts_below(geos@, (2 * page.page_no + 1) * hh + page0.top + rows_before(ws, 0, per) + t));
        assert(gen_below(&gen_layout, (2 * page.page_no + 1) * hh + page0.top + rows_before(ws, 0, per) + t));
    }
    while idx < count
        invariant
            0 <= idx <= n,
            n == ws.len(),
            count == n,
            widgets@ == ws.subrange(idx as int, n),
            forall|j: int| 0 <= j < n ==> is_measured(#[trigger] ws[j].label),
            state_ok(
                page,
                page0,
                geos@,
                g0,
                stretch@,
                blocks_out@,
                &gen_layout,
                idx as int,
                hh,
                page0.top + rows_before(ws, idx as int, per),
                t,
                endless,
            ),
            page0.x_ok(),
            page0.top == page.top,
            page0.line_spacing == per - 2 * t,
            t >= 0,
            hh >= 0,
            2 * n + 2 <= u16::MAX,
            (4 * n + 2) * hh + page0.top + rows_before(ws, n, per) + t + 1 <= u16::MAX,
            payloads@.len() == g0.len(),
            gen_layout.keys().len() == idx,
            forall|j: int| 0 <= j < idx ==> cloned(#[trigger] ws[j].id, gen_layout.keys()[j]),
            gen_layout.labels() == label_strs(ws).take(idx as int),
            gen_layout.area_view() == Rect::zero(),
            gen_layout.page_size_view() == page_size,
            gen_layout.page_count_view() == 1,
        decreases n - idx,
    {
        let w = widgets.remove(0);
        assert(w == ws[idx as int]);
        let break_after = has_break(&page_breaks, idx);
        let ghost bk = page0.top + rows_before(ws, idx as int, per);
        let ghost keys0 = gen_layout.keys();
        proof {
            lemma_rows_before(ws, idx as int, n, per);
            lemma_rows_before(ws, idx + 1, n, per);
            lemma_rows_before(ws, 0, idx as int, per);
            assert(idx * (per + 1) >= idx * (t + 1)) by (nonlinear_arith)
                requires
                    per >= t,
                    idx >= 0,
            ;
            assert(rows_before(ws, idx + 1, per) == rows_before(ws, idx as int, per) + per
                + label_height(ws[idx as int].label) + widget_height(ws[idx as int].widget) + 1);
        }
        place_widget(
            &mut page,
            &mut geos,
            &mut stretch,
            &mut blocks_out,
            &mut gen_layout,
            &payloads,
            w,
            idx,
            break_after,
            endless,
            Ghost(page0),
            Ghost(g0),
            Ghost(hh),
            Ghost(bk),
            Ghost(t),
            Ghost(n),
            Ghost(page0.top + rows_before(ws, n, per)),
        );
        proof {
            assert(widgets@ =~= ws.subrange(idx + 1, n));
            assert forall|j: int| 0 <= j < idx + 1 implies cloned(
                #[trigger] ws[j].id,
                gen_layout.keys()[j],
            ) by {
                if j < idx {
                    assert(gen_layout.keys()[j] == keys0[j]);
                }
            }
            assert(label_strs(ws).take(idx + 1) =~= label_strs(ws).take(idx as int).push(
                ws[idx as int].label_str,
            ));
        }
        idx = idx + 1;
    }
    proof {
        assert(label_strs(ws).take(n) =~= label_strs(ws));
        lemma_mul_le(page.page_no as int, 2 * n, hh);
        lemma_mul_le(2 * page.page_no + 2, 4 * n + 2, hh);
        assert((2 * page.page_no + 1) * hh + hh == (2 * page.page_no + 2) * hh)
            by (nonlinear_arith);
    }

    // modify layout to add y-stretch
    adjust_y_stretch(
        &page,
        &mut stretch,
        &mut gen_layout,
        Ghost((2 * page.page_no + 1) * hh + page0.top + rows_before(ws, n, per) + t),
    );

    gen_layout.set_page_count((page.page_no + 1) as usize);

    gen_layout
}

impl<W, B: Clone> LayoutForm<W, B> where W: Eq + Hash + Clone {
    /// Calculate a layout without page-breaks using the given layout-width and border.
    ///
    /// Deprecated: use `build_endless`.
    pub fn endless(self, width: u16, border: Padding) -> (r: GenericLayout<W, B>)
        requires
            self.wf(),
            all_closed(self.blocks@),
            x_fits(&LayoutForm { page_border: border, ..self }, width),
            y_fits(&LayoutForm { page_border: border, ..self }, u16::MAX, true),
        ensures
            r.wf(),
            r.keys().len() == self.widgets@.len(),
            forall|i: int|
                0 <= i < self.widgets@.len() ==> cloned(#[trigger] self.widgets@[i].id, r.keys()[i]),
            r.labels() == label_strs(self.widgets@),
            r.page_size_view() == (Size { width, height: u16::MAX }),
            r.page_count_view() == 1,
    {
        let layout = LayoutForm { page_border: border, ..self };
        layout.build_endless(width)
    }

    /// Calculate the layout for the given page size and border.
    ///
    /// Deprecated: use `build_paged`.
    pub fn paged(self, page: Size, border: Padding) -> (r: GenericLayout<W, B>)
        requires
            self.wf(),
            all_closed(self.blocks@),
            x_fits(&LayoutForm { page_border: border, ..self }, page.width),
            y_fits(&LayoutForm { page_border: border, ..self }, page.height, false),
        ensures
            r.wf(),
            r.keys().len() == self.widgets@.len(),
            forall|i: int|
                0 <= i < self.widgets@.len() ==> cloned(#[trigger] self.widgets@[i].id, r.keys()[i]),
            r.labels() == label_strs(self.widgets@),
            r.page_size_view() == page,
            r.page_count_view() >= 1,
    {
        let layout = LayoutForm { page_border: border, ..self };
        layout.build_paged(page)
    }

    /// Calculate a layout without page-breaks using the given layout-width.
    pub fn build_endless(self, width: u16) -> (r: GenericLayout<W, B>)
        requires
            self.wf(),
            all_closed(self.blocks@),
            x_fits(&self, width),
            y_fits(&self, u16::MAX, true),
        ensures
            r.wf(),
            r.keys().len() == self.widgets@.len(),
            forall|i: int|
                0 <= i < self.widgets@.len() ==> cloned(#[trigger] self.widgets@[i].id, r.keys()[i]),
            r.labels() == label_strs(self.widgets@),
            r.area_view() == Rect::zero(),
            r.page_size_view() == (Size { width, height: u16::MAX }),
            r.page_count_view() == 1,
    {
        build_layout(self, Size::new(width, u16::MAX), true)
    }

    /// Calculate the layout for the given page size.
    pub fn build_paged(self, page: Size) -> (r: GenericLayout<W, B>)
        requires
            self.wf(),
            all_closed(self.blocks@),
            x_fits(&self, page.width),
            y_fits(&self, page.height, false),
        ensures
            r.wf(),
            r.keys().len() == self.widgets@.len(),
            forall|i: int|
                0 <= i < self.widgets@.len() ==> cloned(#[trigger] self.widgets@[i].id, r.keys()[i]),
            r.labels() == label_strs(self.widgets@),
            r.area_view() == Rect::zero(),
            r.page_size_view() == page,
            r.page_count_view() >= 1,
    {
        build_layout(self, page, false)
    }
}

} // verus!
