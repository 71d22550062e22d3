//!
//! Geometry of the clipper: a widget that renders the visible part of a
//! larger layout into a temporary buffer and copies that to the screen,
//! shifted by the scroll offsets.
//!
use crate::geometry::{max_u16, min_u16, sat_sub, Position, Rect};
use crate::layout::generic_layout::GenericLayout;
use std::hash::Hash;
use vstd::prelude::*;

verus! {

/// The extent grown by the area: the area itself without an extent.
pub open spec fn grown(ext: Option<Rect>, area: Rect) -> Option<Rect> {
    match ext {
        Some(v) => Some(v.spec_union(area)),
        None => Some(area),
    }
}

/// The extent grown by the area, if the area isn't empty.
pub open spec fn grown_nonempty(ext: Option<Rect>, area: Rect) -> Option<Rect> {
    if area.spec_is_empty() {
        ext
    } else {
        grown(ext, area)
    }
}

/// Extent of the first `n` widgets and labels in the view: the union of
/// their non-empty areas, taken in order, for each widget whose area or
/// label area intersects the view.
pub open spec fn widget_extent(widgets: Seq<Rect>, labels: Seq<Rect>, view: Rect, n: int) -> Option<
    Rect,
>
    decreases n,
{
    if n <= 0 {
        None
    } else {
        let e = widget_extent(widgets, labels, view, n - 1);
        let (w, l) = (widgets[n - 1], labels[n - 1]);
        if view.spec_intersects(w) || view.spec_intersects(l) {
            grown_nonempty(grown_nonempty(e, w), l)
        } else {
            e
        }
    }
}

/// The extent grown by the first `n` blocks that intersect the view.
pub open spec fn block_extent(ext: Option<Rect>, blocks: Seq<Rect>, view: Rect, n: int) -> Option<
    Rect,
>
    decreases n,
{
    if n <= 0 {
        ext
    } else {
        let e = block_extent(ext, blocks, view, n - 1);
        if view.spec_intersects(blocks[n - 1]) {
            grown(e, blocks[n - 1])
        } else {
            e
        }
    }
}

/// Largest right edge of the first `n` areas, 0 without one.
pub open spec fn max_right(areas: Seq<Rect>, n: int) -> u16
    decreases n,
{
    if n <= 0 {
        0
    } else {
        max_u16(max_right(areas, n - 1), areas[n - 1].spec_right())
    }
}

/// Largest bottom edge of the first `n` areas, 0 without one.
pub open spec fn max_bottom(areas: Seq<Rect>, n: int) -> u16
    decreases n,
{
    if n <= 0 {
        0
    } else {
        max_u16(max_bottom(areas, n - 1), areas[n - 1].spec_bottom())
    }
}

/// The view of the layout: the scroll offsets, cut to 16 bits, with the
/// size of the area.
pub open spec fn clip_view(area: Rect, h_offset: usize, v_offset: usize) -> Rect {
    Rect::spec_new(h_offset as u16, v_offset as u16, area.width, area.height)
}

/// The buffer area for the view: the extent of all that is visible in
/// it, or the view itself when nothing is; and the largest right and
/// bottom edges of the whole layout.
pub open spec fn clip_layout<W, B>(layout: GenericLayout<W, B>, view: Rect) -> (Rect, Position)
    where W: Eq + Hash + Clone,
 {
    let ws = layout.widget_areas();
    let ls = layout.label_areas();
    let bs = layout.block_areas();
    let e = block_extent(widget_extent(ws, ls, view, ws.len() as int), bs, view, bs.len() as int);
    (
        match e {
            Some(x) => x,
            None => view,
        },
        Position {
            x: max_u16(
                max_u16(max_right(ws, ws.len() as int), max_right(ls, ws.len() as int)),
                max_right(bs, bs.len() as int),
            ),
            y: max_u16(
                max_u16(max_bottom(ws, ws.len() as int), max_bottom(ls, ws.len() as int)),
                max_bottom(bs, bs.len() as int),
            ),
        },
    )
}

/// Calculates the buffer area and the largest extent of the layout for
/// rendering into `area` with the given scroll offsets.
pub fn calc_layout<W, B>(layout: &GenericLayout<W, B>, area: Rect, h_offset: usize, v_offset: usize) -> (r: (
    Rect,
    Position,
)) where W: Eq + Hash + Clone
    requires
        layout.wf(),
    ensures
        r == clip_layout(*layout, clip_view(area, h_offset, v_offset)),
{
    let view = Rect::new(
        #[verifier::truncate] (h_offset as u16),
        #[verifier::truncate] (v_offset as u16),
        area.width,
        area.height,
    );
    let ghost ws = layout.widget_areas();
    let ghost ls = layout.label_areas();
    let ghost bs = layout.block_areas();

    let mut max_x: u16 = 0;
    let mut max_y: u16 = 0;
    let mut ext: Option<Rect> = None;
    let n = layout.area_len();
    let mut idx: usize = 0;
    while idx < n
        invariant
            layout.wf(),
            n == ws.len(),
            ws == layout.widget_areas(),
            ls == layout.label_areas(),
            ls.len() == ws.len(),
            idx <= n,
            ext == widget_extent(ws, ls, view, idx as int),
            max_x == max_u16(max_right(ws, idx as int), max_right(ls, idx as int)),
            max_y == max_u16(max_bottom(ws, idx as int), max_bottom(ls, idx as int)),
        decreases n - idx,
    {
        let w = layout.widget(idx);
        let l = layout.label(idx);
        if view.intersects(w) || view.intersects(l) {
            if !w.is_empty() {
                ext = match ext {
                    Some(v) => Some(v.union(w)),
                    None => Some(w),
                };
            }
            if !l.is_empty() {
                ext = match ext {
                    Some(v) => Some(v.union(l)),
                    None => Some(l),
                };
            }
        }
        let (wr, wb) = (w.right(), w.bottom());
        let (lr, lb) = (l.right(), l.bottom());
        max_x = if max_x >= wr { max_x } else { wr };
        max_y = if max_y >= wb { max_y } else { wb };
        max_x = if max_x >= lr { max_x } else { lr };
        max_y = if max_y >= lb { max_y } else { lb };
        idx = idx + 1;
    }
    let ghost we = ext;
    let ghost wx = max_x;
    let ghost wy = max_y;
    let m = layout.block_len();
    let mut idx: usize = 0;
    while idx < m
        invariant
            layout.wf(),
            bs == layout.block_areas(),
            m == bs.len(),
            idx <= m,
            ext == block_extent(we, bs, view, idx as int),
            max_x == max_u16(wx, max_right(bs, idx as int)),
            max_y == max_u16(wy, max_bottom(bs, idx as int)),
        decreases m - idx,
    {
        let b = layout.block_area(idx);
        if view.intersects(b) {
            ext = match ext {
                Some(v) => Some(v.union(b)),
                None => Some(b),
            };
        }
        let (br, bb) = (b.right(), b.bottom());
        max_x = if max_x >= br { max_x } else { br };
        max_y = if max_y >= bb { max_y } else { bb };
        idx = idx + 1;
    }
    let ext_view = match ext {
        Some(v) => v,
        None => view,
    };
    (ext_view, Position { x: max_x, y: max_y })
}

/// The scroll limits after the layout: page length and largest offset,
/// vertical then horizontal, for the widget area and the largest extent.
pub fn scroll_limits(widget_area: Rect, max_pos: Position) -> (r: (usize, usize, usize, usize))
    ensures
        r == (
            widget_area.height as usize,
            sat_sub(max_pos.y, widget_area.height) as usize,
            widget_area.width as usize,
            sat_sub(max_pos.x, widget_area.width) as usize,
        ),
{
    (
        widget_area.height as usize,
        max_pos.y.saturating_sub(widget_area.height) as usize,
        widget_area.width as usize,
        max_pos.x.saturating_sub(widget_area.width) as usize,
    )
}

/// The area in buffer coordinates, which are aligned with the layout's;
/// None if it lies outside the buffer.
pub fn locate_area(buffer_area: Rect, area: Rect) -> (r: Option<Rect>)
    ensures
        r == (if buffer_area.spec_intersects(area) {
            Some(area)
        } else {
            None::<Rect>
        }),
{
    if buffer_area.intersects(area) {
        Some(area)
    } else {
        None
    }
}

/// The shift from layout to screen coordinates: the widget area's origin
/// less the scroll offset, both taken as 16-bit signed numbers.
pub fn shift(widget_area: Rect, offset: Position) -> (r: (i16, i16))
    requires
        i16::MIN <= (widget_area.x as i16) - (offset.x as i16) <= i16::MAX,
        i16::MIN <= (widget_area.y as i16) - (offset.y as i16) <= i16::MAX,
    ensures
        r.0 == (widget_area.x as i16) - (offset.x as i16),
        r.1 == (widget_area.y as i16) - (offset.y as i16),
{
    let x0 = #[verifier::truncate] (widget_area.x as i16);
    let x1 = #[verifier::truncate] (offset.x as i16);
    let y0 = #[verifier::truncate] (widget_area.y as i16);
    let y1 = #[verifier::truncate] (offset.y as i16);
    (x0 - x1, y0 - y1)
}

/// The part of the buffer to copy to the screen.
#[derive(Debug, Clone, Copy, PartialEq, Eq, Structural)]
pub struct CopySpan {
    /// Columns the copy starts right of the target's left edge.
    pub off_x: u16,
    /// Rows the copy starts below the target's top edge.
    pub off_y: u16,
    /// Columns cut from the buffer's left edge.
    pub cut_x: u16,
    /// Rows cut from the buffer's top edge.
    pub cut_y: u16,
    /// Columns to copy per row.
    pub len: u16,
    /// Rows to copy.
    pub height: u16,
}

/// The copy from the buffer at `src` to the screen area `tgt`, for the
/// scroll offset: a buffer starting right of (below) the offset starts
/// that much into the target, one starting left of (above) it is cut by
/// that much; the copy is as long and as high as both allow.
pub open spec fn spec_copy_span(src: Rect, tgt: Rect, offset: Position) -> CopySpan {
    let off_x = sat_sub(src.x, offset.x);
    let off_y = sat_sub(src.y, offset.y);
    let cut_x = sat_sub(offset.x, src.x);
    let cut_y = sat_sub(offset.y, src.y);
    CopySpan {
        off_x,
        off_y,
        cut_x,
        cut_y,
        len: min_u16(sat_sub(src.width, cut_x), sat_sub(tgt.width, off_x)),
        height: min_u16(sat_sub(src.height, cut_y), sat_sub(tgt.height, off_y)),
    }
}

/// Calculates the part of the buffer to copy to the screen.
pub fn copy_span(src: Rect, tgt: Rect, offset: Position) -> (r: CopySpan)
    ensures
        r == spec_copy_span(src, tgt, offset),
{
    let off_x = src.x.saturating_sub(offset.x);
    let off_y = src.y.saturating_sub(offset.y);
    let cut_x = offset.x.saturating_sub(src.x);
    let cut_y = offset.y.saturating_sub(src.y);
    let len_src = src.width.saturating_sub(cut_x);
    let len_tgt = tgt.width.saturating_sub(off_x);
    let height_src = src.height.saturating_sub(cut_y);
    let height_tgt = tgt.height.saturating_sub(off_y);
    CopySpan {
        off_x,
        off_y,
        cut_x,
        cut_y,
        len: if len_src <= len_tgt { len_src } else { len_tgt },
        height: if height_src <= height_tgt { height_src } else { height_tgt },
    }
}

/// The area to scroll to for showing a widget: widget and label area
/// together, or the one that isn't empty; None if both are.
pub open spec fn spec_show_area(widget_area: Rect, label_area: Rect) -> Option<Rect> {
    if !widget_area.spec_is_empty() {
        if !label_area.spec_is_empty() {
            Some(widget_area.spec_union(label_area))
        } else {
            Some(widget_area)
        }
    } else if !label_area.spec_is_empty() {
        Some(label_area)
    } else {
        None
    }
}

/// The area to scroll to for showing a widget.
pub fn show_area(widget_area: Rect, label_area: Rect) -> (r: Option<Rect>)
    ensures
        r == spec_show_area(widget_area, label_area),
{
    if !widget_area.is_empty() {
        if !label_area.is_empty() {
            Some(widget_area.union(label_area))
        } else {
            Some(widget_area)
        }
    } else if !label_area.is_empty() {
        Some(label_area)
    } else {
        None
    }
}

/// Index of the first widget whose area intersects the view, in the
/// order the widgets were added.
pub fn first_visible<W, B>(layout: &GenericLayout<W, B>, view: Rect) -> (r: Option<usize>) where
    W: Eq + Hash + Clone,

    ensures
        match r {
            Some(i) => i < layout.widget_areas().len() && view.spec_intersects(
                layout.widget_areas()[i as int],
            ) && forall|j: int|
                0 <= j < i ==> !view.spec_intersects(#[trigger] layout.widget_areas()[j]),
            None => forall|j: int|
                0 <= j < layout.widget_areas().len() ==> !view.spec_intersects(
                    #[trigger] layout.widget_areas()[j],
                ),
        },
{
    let n = layout.area_len();
    let mut idx: usize = 0;
    while idx < n
        invariant
            n == layout.widget_areas().len(),
            idx <= n,
            forall|j: int| 0 <= j < idx ==> !view.spec_intersects(#[trigger] layout.widget_areas()[j]),
        decreases n - idx,
    {
        if layout.widget(idx).intersects(view) {
            assert(view.spec_intersects(layout.widget_areas()[idx as int]));
            return Some(idx);
        }
        idx = idx + 1;
    }
    None
}

} // verus!
