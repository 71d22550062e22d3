//!
//! Row areas of a list: the items stacked from the scroll offset on, the
//! page length and the largest useful offset.
//!
use crate::geometry::Rect;
use vstd::prelude::*;

verus! {

/// Total height of the items `from..to`.
pub open spec fn height_between(h: Seq<u16>, from: int, to: int) -> int
    decreases to - from,
{
    if to <= from {
        0
    } else {
        height_between(h, from, to - 1) + h[to - 1]
    }
}

/// Number of items from `i` on that get a row when `left` rows of the
/// area are still free: items are stacked until the area is filled, and
/// the item that fills it still gets its row.
pub open spec fn shown_count(h: Seq<u16>, i: int, left: int) -> int
    decreases h.len() - i,
{
    if i < 0 || i >= h.len() {
        0
    } else if h[i] >= left {
        1
    } else {
        1 + shown_count(h, i + 1, left - h[i])
    }
}

/// Number of items before `end` that fit together, counted from `end`
/// backwards, into `left` rows.
pub open spec fn fit_at_end(h: Seq<u16>, end: int, left: int) -> int
    decreases end,
{
    if end <= 0 || end > h.len() {
        0
    } else if h[end - 1] > left {
        0
    } else {
        1 + fit_at_end(h, end - 1, left - h[end - 1])
    }
}

/// Number of rows of a list in `inner` with the item heights `h`, scrolled
/// to `offset`.
pub open spec fn row_count(inner: Rect, h: Seq<u16>, offset: int) -> int {
    shown_count(h, offset, inner.height as int)
}

/// Area of row `j` of the list, the item `offset + j`: the full width of
/// the area, below the rows before it, as high as the item.
pub open spec fn list_row(inner: Rect, h: Seq<u16>, offset: int, j: int) -> Rect {
    Rect {
        x: inner.x,
        y: (inner.y + height_between(h, offset, offset + j)) as u16,
        width: Rect::spec_new(inner.x, inner.y, inner.width, 1).width,
        height: h[offset + j],
    }
}

/// Page length: the rows shown, and where they don't fill the area, one
/// more for each free line.
pub open spec fn list_page_len(inner: Rect, h: Seq<u16>, offset: int) -> int {
    let n = row_count(inner, h, offset);
    let total = height_between(h, offset, offset + n);
    if total < inner.height {
        n + inner.height - total
    } else {
        n
    }
}

/// The largest useful offset: the number of items less those at the end
/// that fit into the area together.
pub open spec fn list_max_offset(inner: Rect, h: Seq<u16>) -> int {
    h.len() - fit_at_end(h, h.len() as int, inner.height as int)
}

proof fn lemma_height_between_grows(h: Seq<u16>, a: int, b: int, c: int)
    requires
        a <= b <= c,
    ensures
        height_between(h, a, b) <= height_between(h, a, c),
    decreases c - b,
{
    if b < c {
        lemma_height_between_grows(h, a, b, c - 1);
    }
}

proof fn lemma_fit_at_end_bounds(h: Seq<u16>, end: int, left: int)
    ensures
        0 <= fit_at_end(h, end, left),
        0 <= end <= h.len() ==> fit_at_end(h, end, left) <= end,
    decreases end,
{
    if 0 < end <= h.len() && h[end - 1] <= left {
        lemma_fit_at_end_bounds(h, end - 1, left - h[end - 1]);
    }
}

proof fn lemma_shown_count_bounds(h: Seq<u16>, i: int, left: int)
    requires
        0 <= i,
    ensures
        0 <= shown_count(h, i, left),
        i <= h.len() ==> i + shown_count(h, i, left) <= h.len(),
        i < h.len() ==> shown_count(h, i, left) >= 1,
    decreases h.len() - i,
{
    if i < h.len() && h[i] < left {
        lemma_shown_count_bounds(h, i + 1, left - h[i]);
    }
}

proof fn lemma_height_between_first(h: Seq<u16>, i: int, k: int)
    requires
        i < k,
    ensures
        height_between(h, i, k) == h[i] + height_between(h, i + 1, k),
    decreases k - i,
{
    assert(height_between(h, i, i) == 0);
    if i + 1 < k {
        lemma_height_between_first(h, i, k - 1);
        assert(height_between(h, i + 1, k) == height_between(h, i + 1, k - 1) + h[k - 1]);
    } else {
        assert(height_between(h, i + 1, k) == 0);
        assert(height_between(h, i, k) == height_between(h, i, i) + h[i]);
    }
}

/// Every row but the first starts inside the area: the items before it
/// leave some of the `left` lines free. Only the first row may start at
/// the bottom, in an area without lines.
pub proof fn lemma_rows_start_inside(h: Seq<u16>, i: int, left: int, j: int)
    requires
        0 <= i,
        0 < j < shown_count(h, i, left),
    ensures
        height_between(h, i, i + j) < left,
    decreases j,
{
    assert(0 <= i < h.len() && h[i] < left);
    lemma_height_between_first(h, i, i + j);
    if j > 1 {
        lemma_rows_start_inside(h, i + 1, left - h[i], j - 1);
    }
}

/// The rows fill the area: where fewer items get a row than follow the
/// offset, the last row reaches the bottom of the area.
pub proof fn lemma_rows_fill(h: Seq<u16>, i: int, left: int)
    requires
        0 <= i,
        i + shown_count(h, i, left) < h.len(),
    ensures
        height_between(h, i, i + shown_count(h, i, left)) >= left,
    decreases h.len() - i,
{
    lemma_shown_count_bounds(h, i, left);
    lemma_height_between_first(h, i, i + shown_count(h, i, left));
    if h[i] < left {
        lemma_rows_fill(h, i + 1, left - h[i]);
    }
}

/// The items counted by `fit_at_end` fit together into the `left` lines,
/// and one item more would not.
pub proof fn lemma_fit_at_end(h: Seq<u16>, end: int, left: int)
    requires
        0 <= end <= h.len(),
        0 <= left,
    ensures
        0 <= fit_at_end(h, end, left) <= end,
        height_between(h, end - fit_at_end(h, end, left), end) <= left,
        end - fit_at_end(h, end, left) > 0 ==> height_between(h, end - fit_at_end(h, end, left) - 1, end) > left,
    decreases end,
{
    let f = fit_at_end(h, end, left);
    if end > 0 {
        if h[end - 1] <= left {
            lemma_fit_at_end(h, end - 1, left - h[end - 1]);
            assert(height_between(h, end - f, end) == height_between(h, end - f, end - 1) + h[end - 1]);
            if end - f > 0 {
                assert(height_between(h, end - f - 1, end) == height_between(h, end - f - 1, end - 1) + h[end - 1]);
            }
        } else {
            assert(height_between(h, end - 1, end - 1) == 0);
            assert(height_between(h, end - 1, end) == h[end - 1]);
        }
    }
}

/// Lays out the rows of a list in `inner` for the items with the heights
/// `heights`, scrolled to `offset`. The items from the offset on are
/// stacked from the top of the area, each over the area's width and as
/// high as the item, until their total height fills the area; the item
/// that fills it still gets its row.
///
/// Returns the row areas, the page length (the rows shown, and one more
/// for each line they leave free) and the largest useful offset (the
/// number of items less those at the end that fit into the area).
pub fn list_rows(inner: Rect, heights: &Vec<u16>, offset: usize) -> (r: (Vec<Rect>, usize, usize))
    requires
        inner.y + height_between(heights@, offset as int, offset + row_count(inner, heights@, offset as int))
            <= u16::MAX,
        row_count(inner, heights@, offset as int) + inner.height <= usize::MAX,
    ensures
        r.0@.len() == row_count(inner, heights@, offset as int),
        forall|j: int| 0 <= j < r.0@.len() ==> #[trigger] r.0@[j] == list_row(inner, heights@, offset as int, j),
        forall|j: int| 0 < j < r.0@.len() ==> #[trigger] r.0@[j].y < inner.y + inner.height,
        offset + r.0@.len() < heights@.len() ==> height_between(heights@, offset as int, offset + r.0@.len())
            >= inner.height,
        r.2 <= heights@.len(),
        height_between(heights@, r.2 as int, heights@.len() as int) <= inner.height,
        r.2 > 0 ==> height_between(heights@, r.2 - 1, heights@.len() as int) > inner.height,
        r.1 == list_page_len(inner, heights@, offset as int),
        r.2 == list_max_offset(inner, heights@),
{
    let ghost h = heights@;
    let ghost hh = inner.height as int;
    let ghost sc = row_count(inner, h, offset as int);
    let w = Rect::new(inner.x, inner.y, inner.width, 1);
    let len = heights.len();
    let mut rows: Vec<Rect> = Vec::new();
    let mut y: u16 = inner.y;
    let mut total: u16 = 0;
    let mut i: usize = offset;
    let mut done = false;
    proof {
        lemma_shown_count_bounds(h, offset as int, hh);
    }
    while i < len && !done
        invariant
            h == heights@,
            len == h.len(),
            hh == inner.height,
            w == Rect::spec_new(inner.x, inner.y, inner.width, 1),
            sc == shown_count(h, offset as int, hh),
            offset <= i,
            offset < len ==> i <= len,
            offset >= len ==> i == offset,
            offset < len ==> offset + sc <= len,
            sc + inner.height <= usize::MAX,
            rows@.len() == i - offset,
            total == height_between(h, offset as int, i as int),
            y == inner.y + total,
            inner.y + height_between(h, offset as int, offset + sc) <= u16::MAX,
            done ==> sc == i - offset,
            !done ==> i == offset || total < hh,
            !done ==> sc == (i - offset) + shown_count(h, i as int, hh - total),
            forall|j: int| 0 <= j < rows@.len() ==> #[trigger] rows@[j] == list_row(inner, h, offset as int, j),
        decreases len - i,
    {
        let item = heights[i];
        proof {
            lemma_shown_count_bounds(h, i as int, hh - total);
            lemma_height_between_grows(h, offset as int, i + 1, offset + sc);
            assert(height_between(h, offset as int, i + 1) == total + item);
        }
        let row = Rect { x: w.x, y, width: w.width, height: item };
        rows.push(row);
        proof {
            assert(rows@[i - offset] == list_row(inner, h, offset as int, i - offset));
        }
        let fills = item >= inner.height - total;
        y = y + item;
        total = total + item;
        i = i + 1;
        if fills {
            done = true;
        }
    }
    proof {
        if !done {
            assert(shown_count(h, i as int, hh - total) == 0);
        }
    }
    let n = rows.len();
    let page_len = if total < inner.height {
        n + (inner.height - total) as usize
    } else {
        n
    };

    // the items at the end that fit together
    let mut fit: usize = 0;
    let mut left: u16 = inner.height;
    let mut k: usize = len;
    let mut stop = false;
    proof {
        lemma_fit_at_end_bounds(h, len as int, hh);
    }
    while k > 0 && !stop
        invariant
            h == heights@,
            len == h.len(),
            hh == inner.height,
            k <= len,
            fit == len - k,
            !stop ==> fit_at_end(h, len as int, hh) == fit + fit_at_end(h, k as int, left as int),
            stop ==> fit_at_end(h, len as int, hh) == fit,
        decreases k, if stop { 0int } else { 1int },
    {
        let item = heights[k - 1];
        if item > left {
            stop = true;
        } else {
            left = left - item;
            fit = fit + 1;
            k = k - 1;
        }
    }
    proof {
        assert forall|j: int| 0 < j < rows@.len() implies #[trigger] rows@[j].y < inner.y + inner.height by {
            lemma_rows_start_inside(h, offset as int, hh, j);
            lemma_height_between_grows(h, offset as int, offset + j, offset + sc);
            lemma_height_between_grows(h, offset as int, offset as int, offset + j);
            assert(rows@[j] == list_row(inner, h, offset as int, j));
        }
        if offset + sc < len {
            lemma_rows_fill(h, offset as int, hh);
        }
        lemma_fit_at_end(h, len as int, hh);
    }
    (rows, page_len, len - fit)
}

/// The area of the list's row for the item `row`, if it is shown: rows
/// count from the offset, within the page length and the rows laid out.
pub fn row_area(row_areas: &Vec<Rect>, offset: usize, page_len: usize, row: usize) -> (r: Option<Rect>)
    requires
        offset + page_len <= usize::MAX,
    ensures
        r == (if offset <= row && row < offset + page_len && row - offset < row_areas@.len() {
            Some(row_areas@[row - offset])
        } else {
            None::<Rect>
        }),
{
    if row < offset || row >= offset + page_len {
        return None;
    }
    let row = row - offset;
    if row >= row_areas.len() {
        return None;
    }
    Some(row_areas[row])
}

} // verus!
