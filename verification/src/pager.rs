//!
//! Result of pager event handling.
//!
use crate::event::{KeyCode, KeyPress, MouseInput, MouseKind, Outcome};
use crate::geometry::{sat_sub, Position, Rect, Size};
use crate::text::{display_width, text_width};
use vstd::prelude::*;
use vstd::std_specs::convert::FromSpecImpl;

verus! {

/// Result of event handling.
#[derive(Debug, Clone, Copy, PartialEq, Eq, PartialOrd, Ord, Structural)]
pub enum PagerOutcome {
    /// The given event has not been used at all.
    Continue,
    /// The event has been recognized, but the result was nil.
    /// Further processing for this event may stop.
    Unchanged,
    /// The event has been recognized and there is some change
    /// due to it.
    /// Further processing for this event may stop.
    /// Rendering the ui is advised.
    Changed,
    /// Displayed page changed.
    Page(usize),
}

impl PagerOutcome {
    /// Has the event been used up?
    pub fn is_consumed(&self) -> (r: bool)
        ensures
            r == !(*self is Continue),
    {
        !matches!(self, PagerOutcome::Continue)
    }
}

impl From<Outcome> for PagerOutcome {
    fn from(value: Outcome) -> (r: Self) {
        match value {
            Outcome::Continue => PagerOutcome::Continue,
            Outcome::Unchanged => PagerOutcome::Unchanged,
            Outcome::Changed => PagerOutcome::Changed,
        }
    }
}

impl FromSpecImpl<Outcome> for PagerOutcome {
    open spec fn obeys_from_spec() -> bool {
        true
    }

    open spec fn from_spec(value: Outcome) -> PagerOutcome {
        match value {
            Outcome::Continue => PagerOutcome::Continue,
            Outcome::Unchanged => PagerOutcome::Unchanged,
            Outcome::Changed => PagerOutcome::Changed,
        }
    }
}

impl From<PagerOutcome> for Outcome {
    fn from(value: PagerOutcome) -> (r: Self) {
        match value {
            PagerOutcome::Continue => Outcome::Continue,
            PagerOutcome::Unchanged => Outcome::Unchanged,
            PagerOutcome::Changed => Outcome::Changed,
            PagerOutcome::Page(_) => Outcome::Changed,
        }
    }
}

impl FromSpecImpl<PagerOutcome> for Outcome {
    open spec fn obeys_from_spec() -> bool {
        true
    }

    open spec fn from_spec(value: PagerOutcome) -> Outcome {
        match value {
            PagerOutcome::Continue => Outcome::Continue,
            PagerOutcome::Unchanged => Outcome::Unchanged,
            PagerOutcome::Changed => Outcome::Changed,
            PagerOutcome::Page(_) => Outcome::Changed,
        }
    }
}

impl From<bool> for PagerOutcome {
    /// Changed for true, Unchanged for false.
    fn from(value: bool) -> (r: Self) {
        if value {
            PagerOutcome::Changed
        } else {
            PagerOutcome::Unchanged
        }
    }
}

impl FromSpecImpl<bool> for PagerOutcome {
    open spec fn obeys_from_spec() -> bool {
        true
    }

    open spec fn from_spec(value: bool) -> PagerOutcome {
        if value {
            PagerOutcome::Changed
        } else {
            PagerOutcome::Unchanged
        }
    }
}

/// Last valid page for the page count: 0 without pages.
pub open spec fn last_page(count: usize) -> usize {
    if count == 0 {
        0
    } else {
        (count - 1) as usize
    }
}

/// State of the page navigation.
#[derive(Debug, Clone)]
pub struct PageNavigationState {
    /// Full area for the widget.
    /// __read only__ renewed for each render.
    pub area: Rect,
    /// Area for each page.
    /// __read only__ renewed for each render.
    pub widget_areas: Vec<Rect>,
    /// Area for prev-page indicator.
    /// __read only__ renewed with each render.
    pub prev_area: Rect,
    /// Area for next-page indicator.
    /// __read only__ renewed with each render.
    pub next_area: Rect,
    /// Page nr.
    /// __read+write__
    pub page: usize,
    /// Page count.
    /// __read+write__
    pub page_count: usize,
    /// Focus of the container.
    /// __read+write__
    pub focused: bool,
}

impl PageNavigationState {
    /// First page, no pages.
    pub fn new() -> (r: Self)
        ensures
            r.area == Rect::zero(),
            r.prev_area == Rect::zero(),
            r.next_area == Rect::zero(),
            r.page == 0,
            r.page_count == 0,
            r.widget_areas@.len() == 0,
            !r.focused,
    {
        let z = Rect { x: 0, y: 0, width: 0, height: 0 };
        PageNavigationState {
            area: z,
            widget_areas: Vec::new(),
            prev_area: z,
            next_area: z,
            page: 0,
            page_count: 0,
            focused: false,
        }
    }

    /// Reset page and page-count.
    pub fn clear(&mut self)
        ensures
            final(self).page == 0,
            final(self).page_count == 0,
            final(self).area == old(self).area,
            final(self).widget_areas@ == old(self).widget_areas@,
            final(self).focused == old(self).focused,
    {
        self.page = 0;
        self.page_count = 0;
    }

    /// Show the page; the page is cut to the last page. Returns whether
    /// the page changed.
    pub fn set_page(&mut self, page: usize) -> (r: bool)
        ensures
            final(self).page == (if page <= last_page(old(self).page_count) {
                page
            } else {
                last_page(old(self).page_count)
            }),
            final(self).page_count == old(self).page_count,
            r == (old(self).page != final(self).page),
            final(self).area == old(self).area,
            final(self).widget_areas@ == old(self).widget_areas@,
            final(self).focused == old(self).focused,
    {
        let old_page = self.page;
        let last = self.page_count.saturating_sub(1);
        self.page = if page <= last {
            page
        } else {
            last
        };
        old_page != self.page
    }

    /// Current page.
    pub fn page(&self) -> (r: usize)
        ensures
            r == self.page,
    {
        self.page
    }

    /// Set the page count; the page is cut to the new last page.
    pub fn set_page_count(&mut self, count: usize)
        ensures
            final(self).page_count == count,
            final(self).page == (if old(self).page <= last_page(count) {
                old(self).page
            } else {
                last_page(count)
            }),
            final(self).area == old(self).area,
            final(self).widget_areas@ == old(self).widget_areas@,
            final(self).focused == old(self).focused,
    {
        self.page_count = count;
        let last = count.saturating_sub(1);
        if self.page > last {
            self.page = last;
        }
    }

    /// Page count.
    pub fn page_count(&self) -> (r: usize)
        ensures
            r == self.page_count,
    {
        self.page_count
    }

    /// Select next page. Keeps the page in bounds.
    pub fn next_page(&mut self) -> (r: bool)
        ensures
            final(self).page == (if old(self).page + 1 >= old(self).page_count {
                last_page(old(self).page_count)
            } else {
                (old(self).page + 1) as usize
            }),
            final(self).page_count == old(self).page_count,
            r == (old(self).page != final(self).page),
            final(self).area == old(self).area,
            final(self).widget_areas@ == old(self).widget_areas@,
            final(self).focused == old(self).focused,
    {
        let old_page = self.page;
        if self.page >= self.page_count || self.page_count - self.page <= 1 {
            self.page = self.page_count.saturating_sub(1);
        } else {
            self.page = self.page + 1;
        }
        old_page != self.page
    }

    /// Select prev page.
    pub fn prev_page(&mut self) -> (r: bool)
        ensures
            final(self).page == (if old(self).page > 0 {
                (old(self).page - 1) as usize
            } else {
                0
            }),
            final(self).page_count == old(self).page_count,
            r == (old(self).page > 0),
            final(self).area == old(self).area,
            final(self).widget_areas@ == old(self).widget_areas@,
            final(self).focused == old(self).focused,
    {
        if self.page > 0 {
            self.page = self.page - 1;
            true
        } else {
            false
        }
    }
}

/// Width of a page mark: its display width cut to 16 bits.
pub open spec fn mark_width(mark: Seq<char>) -> u16 {
    display_width(mark) as u16
}

/// Size of the layout for one page column: the inner width shared by the
/// pages, and the inner height.
pub fn layout_size(inner: Rect, pages: u8) -> (r: Size)
    requires
        pages > 0,
    ensures
        r == (Size { width: (inner.width / (pages as u16)) as u16, height: inner.height }),
{
    Size { width: inner.width / (pages as u16), height: inner.height }
}

/// The `k`-th of the columns that start at `col` and follow each other.
pub open spec fn nth_column(col: Rect, k: int) -> Rect {
    Rect { x: (col.x + k * col.width) as u16, ..col }
}

impl PageNavigationState {
    /// Sets the areas for rendering into `area`, with `inner` the area
    /// inside the block: `pages` columns of equal width side by side, and
    /// on the first line the marks for the previous page at the left and
    /// for the next page at the right. The first and the last page show
    /// their own marks.
    pub fn layout(
        &mut self,
        area: Rect,
        inner: Rect,
        pages: u8,
        prev_page: &str,
        next_page: &str,
        first_page: &str,
        last_page: &str,
    )
        requires
            pages > 0,
            inner.x + inner.width <= u16::MAX,
            old(self).page + pages <= usize::MAX,
        ensures
            ({
                let w = (inner.width / (pages as u16)) as u16;
                let col = Rect::spec_new(inner.x, inner.y, w, inner.height);
                final(self).widget_areas@ == Seq::new(pages as nat, |k: int| nth_column(col, k))
            }),
            final(self).prev_area == Rect::spec_new(
                inner.x,
                area.y,
                mark_width(
                    if old(self).page > 0 {
                        prev_page@
                    } else {
                        first_page@
                    },
                ),
                1,
            ),
            ({
                let p = mark_width(
                    if old(self).page + pages < old(self).page_count {
                        next_page@
                    } else {
                        last_page@
                    },
                );
                final(self).next_area == Rect::spec_new(
                    (inner.x + sat_sub(inner.width, p)) as u16,
                    area.y,
                    p,
                    1,
                )
            }),
            final(self).area == area,
            final(self).page == old(self).page,
            final(self).page_count == old(self).page_count,
            final(self).focused == old(self).focused,
    {
        self.area = area;

        let width = inner.width / (pages as u16);
        let col = Rect::new(inner.x, inner.y, width, inner.height);
        let ghost all = Seq::new(pages as nat, |k: int| nth_column(col, k));
        assert(pages * width <= inner.width) by (nonlinear_arith)
            requires
                pages > 0,
                width == inner.width / (pages as u16),
        ;
        let mut column_area = col;
        self.widget_areas.clear();
        let mut k: u8 = 0;
        while k < pages
            invariant
                k <= pages,
                pages * width <= inner.width,
                inner.x + inner.width <= u16::MAX,
                col.x == inner.x,
                col.width == width,
                all == Seq::new(pages as nat, |j: int| nth_column(col, j)),
                column_area == nth_column(col, k as int),
                self.widget_areas@ == all.take(k as int),
                self.area == area,
                self.page == old(self).page,
                self.page_count == old(self).page_count,
                self.focused == old(self).focused,
                old(self).page + pages <= usize::MAX,
            decreases pages - k,
        {
            self.widget_areas.push(column_area);
            assert(self.widget_areas@ =~= all.take(k + 1));
            assert((k + 1) * width <= pages * width) by (nonlinear_arith)
                requires
                    k < pages,
            ;
            assert((k + 1) * width == k * width + width) by (nonlinear_arith);
            column_area.x = column_area.x + column_area.width;
            k = k + 1;
        }
        assert(self.widget_areas@ =~= all);

        let prev = if self.page > 0 {
            prev_page
        } else {
            first_page
        };
        self.prev_area = Rect::new(inner.x, area.y, #[verifier::truncate] (text_width(prev) as u16), 1);

        let next = if self.page + (pages as usize) < self.page_count {
            next_page
        } else {
            last_page
        };
        let p = #[verifier::truncate] (text_width(next) as u16);
        self.next_area = Rect::new(inner.x + inner.width.saturating_sub(p), area.y, p, 1);
    }
}

/// The page stays on a valid page: once it lies within the page count,
/// setting the page, the count or moving to the next or previous page
/// keeps it there.
pub proof fn lemma_page_stays_valid(page: usize, count: usize, target: usize, new_count: usize)
    requires
        page <= last_page(count),
    ensures
        (if target <= last_page(count) {
            target
        } else {
            last_page(count)
        }) <= last_page(count),
        (if page <= last_page(new_count) {
            page
        } else {
            last_page(new_count)
        }) <= last_page(new_count),
        (if page + 1 >= count {
            last_page(count)
        } else {
            (page + 1) as usize
        }) <= last_page(count),
        (if page > 0 {
            (page - 1) as usize
        } else {
            0
        }) <= last_page(count),
{
}


/// The page shown after going forward a page, of `count` pages.
pub open spec fn next_page_of(page: usize, count: usize) -> usize {
    if page + 1 >= count {
        last_page(count)
    } else {
        (page + 1) as usize
    }
}

/// The page shown after going back a page.
pub open spec fn prev_page_of(page: usize) -> usize {
    if page > 0 {
        (page - 1) as usize
    } else {
        0
    }
}

impl PageNavigationState {
    /// Handles a key press: with the focus, Alt-PageUp and Alt-PageDown
    /// turn the page; the outcome names the new page.
    pub fn handle_key(&mut self, key: KeyPress) -> (r: PagerOutcome)
        ensures
            final(self).page_count == old(self).page_count,
            final(self).area == old(self).area,
            final(self).widget_areas@ == old(self).widget_areas@,
            final(self).focused == old(self).focused,
            ({
                let turned = final(self).page != old(self).page;
                if old(self).focused && key.is(KeyCode::PageUp, false, false, true) {
                    &&& final(self).page == prev_page_of(old(self).page)
                    &&& r == (if turned { PagerOutcome::Page(final(self).page) } else { PagerOutcome::Continue })
                } else if old(self).focused && key.is(KeyCode::PageDown, false, false, true) {
                    &&& final(self).page == next_page_of(old(self).page, old(self).page_count)
                    &&& r == (if turned { PagerOutcome::Page(final(self).page) } else { PagerOutcome::Continue })
                } else {
                    final(self).page == old(self).page && r == PagerOutcome::Continue
                }
            }),
    {
        if !self.focused || key.shift || key.control || !key.alt {
            return PagerOutcome::Continue;
        }
        if key.code == KeyCode::PageUp {
            if self.prev_page() { PagerOutcome::Page(self.page) } else { PagerOutcome::Continue }
        } else if key.code == KeyCode::PageDown {
            if self.next_page() { PagerOutcome::Page(self.page) } else { PagerOutcome::Continue }
        } else {
            PagerOutcome::Continue
        }
    }

    /// Handles a mouse event: a left click on the page marks or the wheel
    /// over the area turns the page. `hovered` is the mouse tracker's
    /// report that the hover over the page marks changed, asked only for
    /// events that nothing else takes.
    pub fn handle_mouse(&mut self, e: MouseInput, hovered: bool) -> (r: PagerOutcome)
        ensures
            final(self).page_count == old(self).page_count,
            final(self).area == old(self).area,
            final(self).widget_areas@ == old(self).widget_areas@,
            final(self).focused == old(self).focused,
            ({
                let (x, y) = (e.column, e.row);
                let click = e.is(MouseKind::LeftDown, false, false, false);
                let turned = final(self).page != old(self).page;
                let count = old(self).page_count;
                if click && old(self).prev_area.spec_contains(x, y) {
                    &&& final(self).page == prev_page_of(old(self).page)
                    &&& r == (if turned { PagerOutcome::Page(final(self).page) } else { PagerOutcome::Unchanged })
                } else if click && old(self).next_area.spec_contains(x, y) {
                    &&& final(self).page == next_page_of(old(self).page, count)
                    &&& r == (if turned { PagerOutcome::Page(final(self).page) } else { PagerOutcome::Unchanged })
                } else if e.is(MouseKind::ScrollDown, false, false, false) {
                    if old(self).area.spec_contains(x, y) {
                        &&& final(self).page == next_page_of(old(self).page, count)
                        &&& r == (if turned { PagerOutcome::Page(final(self).page) } else { PagerOutcome::Continue })
                    } else {
                        final(self).page == old(self).page && r == PagerOutcome::Continue
                    }
                } else if e.is(MouseKind::ScrollUp, false, false, false) {
                    if old(self).area.spec_contains(x, y) {
                        &&& final(self).page == prev_page_of(old(self).page)
                        &&& r == (if turned { PagerOutcome::Page(final(self).page) } else { PagerOutcome::Continue })
                    } else {
                        final(self).page == old(self).page && r == PagerOutcome::Continue
                    }
                } else {
                    final(self).page == old(self).page && r == (if hovered { PagerOutcome::Changed } else { PagerOutcome::Continue })
                }
            }),
    {
        let p = Position { x: e.column, y: e.row };
        let plain = !e.shift && !e.control && !e.alt;
        if plain && e.kind == MouseKind::LeftDown && self.prev_area.contains(p) {
            if self.prev_page() { PagerOutcome::Page(self.page) } else { PagerOutcome::Unchanged }
        } else if plain && e.kind == MouseKind::LeftDown && self.next_area.contains(p) {
            if self.next_page() { PagerOutcome::Page(self.page) } else { PagerOutcome::Unchanged }
        } else if plain && e.kind == MouseKind::ScrollDown {
            if self.area.contains(p) && self.next_page() { PagerOutcome::Page(self.page) } else { PagerOutcome::Continue }
        } else if plain && e.kind == MouseKind::ScrollUp {
            if self.area.contains(p) && self.prev_page() { PagerOutcome::Page(self.page) } else { PagerOutcome::Continue }
        } else if hovered {
            PagerOutcome::Changed
        } else {
            PagerOutcome::Continue
        }
    }
}

} // verus!
