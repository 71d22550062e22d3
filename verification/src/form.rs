//!
//! State of a form: a layout that is shown one page at a time, and the
//! result of form event handling.
//!
use crate::event::{KeyCode, KeyPress, MouseInput, MouseKind, Outcome};
use crate::geometry::{sat_sub, Rect, Size};
use crate::layout::generic_layout::GenericLayout;
use crate::pager::{last_page, mark_width};
use crate::text::text_width;
use std::hash::Hash;
use vstd::std_specs::hash::obeys_key_model;
use vstd::prelude::*;
use vstd::std_specs::convert::FromSpecImpl;

verus! {

/// Result of event handling.
#[derive(Debug, Clone, Copy, PartialEq, Eq, PartialOrd, Ord, Structural)]
pub enum FormOutcome {
    /// The given event has not been used at all.
    Continue,
    /// The event has been recognized, but the result was nil.
    /// Further processing for this event may stop.
    Unchanged,
    /// The event has been recognized and there is some change
    /// due to it.
    /// Further processing for this event may stop.
    /// Rendering the ui is advised.
    Changed,
    /// Displayed page changed.
    Page,
}

impl FormOutcome {
    /// Has the event been used up?
    pub fn is_consumed(&self) -> (r: bool)
        ensures
            r == !(*self is Continue),
    {
        !matches!(self, FormOutcome::Continue)
    }
}

impl From<Outcome> for FormOutcome {
    fn from(value: Outcome) -> (r: Self) {
        match value {
            Outcome::Continue => FormOutcome::Continue,
            Outcome::Unchanged => FormOutcome::Unchanged,
            Outcome::Changed => FormOutcome::Changed,
        }
    }
}

impl FromSpecImpl<Outcome> for FormOutcome {
    open spec fn obeys_from_spec() -> bool {
        true
    }

    open spec fn from_spec(value: Outcome) -> FormOutcome {
        match value {
            Outcome::Continue => FormOutcome::Continue,
            Outcome::Unchanged => FormOutcome::Unchanged,
            Outcome::Changed => FormOutcome::Changed,
        }
    }
}

impl From<FormOutcome> for Outcome {
    fn from(value: FormOutcome) -> (r: Self) {
        match value {
            FormOutcome::Continue => Outcome::Continue,
            FormOutcome::Unchanged => Outcome::Unchanged,
            FormOutcome::Changed => Outcome::Changed,
            FormOutcome::Page => Outcome::Changed,
        }
    }
}

impl FromSpecImpl<FormOutcome> for Outcome {
    open spec fn obeys_from_spec() -> bool {
        true
    }

    open spec fn from_spec(value: FormOutcome) -> Outcome {
        match value {
            FormOutcome::Continue => Outcome::Continue,
            FormOutcome::Unchanged => Outcome::Unchanged,
            FormOutcome::Changed => Outcome::Changed,
            FormOutcome::Page => Outcome::Changed,
        }
    }
}

/// State of a form.
#[derive(Debug, Clone)]
pub struct FormState<W> where W: Eq + Hash + Clone {
    /// Page layout
    /// __read+write__ might be overwritten from widget.
    pub layout: GenericLayout<W, ()>,
    /// Full area for the widget.
    /// __read only__ renewed for each render.
    pub area: Rect,
    /// Area for the content.
    /// __read only__ renewed for each render.
    pub widget_area: Rect,
    /// Area for prev-page indicator.
    /// __read only__ renewed with each render.
    pub prev_area: Rect,
    /// Area for next-page indicator.
    /// __read only__ renewed with each render.
    pub next_area: Rect,
    /// Visible page.
    pub page: usize,
    /// Focus of the container.
    pub focused: bool,
}

/// The page cut to the last page of the count.
pub open spec fn page_in(page: usize, count: usize) -> usize {
    if page <= last_page(count) {
        page
    } else {
        last_page(count)
    }
}

impl<W> FormState<W> where W: Eq + Hash + Clone {
    /// Empty layout, first page.
    pub fn new() -> (r: Self)
        ensures
            r.area == Rect::zero(),
            r.widget_area == Rect::zero(),
            r.prev_area == Rect::zero(),
            r.next_area == Rect::zero(),
            r.layout.wf(),
            r.layout.keys().len() == 0,
            r.layout.widget_areas().len() == 0,
            r.layout.block_areas().len() == 0,
            r.layout.page_count_view() == 1,
            r.page == 0,
            !r.focused,
    {
        let z = Rect { x: 0, y: 0, width: 0, height: 0 };
        FormState {
            layout: GenericLayout::new(),
            area: z,
            widget_area: z,
            prev_area: z,
            next_area: z,
            page: 0,
            focused: false,
        }
    }

    /// Clear the layout data and reset the page.
    pub fn clear(&mut self)
        ensures
            final(self).layout.wf(),
            final(self).layout.keys().len() == 0,
            final(self).layout.widget_areas().len() == 0,
            final(self).layout.block_areas().len() == 0,
            final(self).layout.page_count_view() == 1,
            final(self).page == 0,
            final(self).focused == old(self).focused,
    {
        self.layout = GenericLayout::new();
        self.page = 0;
    }

    /// Layout needs to change? It doesn't as long as it was made for the
    /// size and holds anything.
    pub fn valid_layout(&self, size: Size) -> (r: bool)
        ensures
            r == (self.layout.page_size_view() == size && !(self.layout.widget_areas().len() == 0
                && self.layout.block_areas().len() == 0)),
    {
        !self.layout.size_changed(size) && !self.layout.is_empty()
    }

    /// Set the layout.
    pub fn set_layout(&mut self, layout: GenericLayout<W, ()>)
        ensures
            final(self).layout == layout,
            final(self).page == old(self).page,
            final(self).focused == old(self).focused,
    {
        self.layout = layout;
    }

    /// Layout.
    pub fn layout(&self) -> (r: &GenericLayout<W, ()>)
        ensures
            *r == self.layout,
    {
        &self.layout
    }

    /// Number of form pages.
    pub fn page_count(&self) -> (r: usize)
        ensures
            r == self.layout.page_count_view(),
    {
        self.layout.page_count()
    }

    /// Returns the first widget for the given page.
    pub fn first(&self, page: usize) -> (r: Option<W>)
        requires
            self.layout.wf(),
            self.layout.widget_areas().len() > 0 ==> self.layout.page_size_view().height > 0,
        ensures
            match r {
                Some(k) => exists|i: int|
                    {
                        &&& 0 <= i < self.layout.widget_areas().len()
                        &&& self.layout.page_of_area(#[trigger] self.layout.widget_areas()[i])
                            == page
                        &&& forall|j: int|
                            0 <= j < i ==> self.layout.page_of_area(
                                #[trigger] self.layout.widget_areas()[j],
                            ) != page
                        &&& cloned(self.layout.keys()[i], k)
                    },
                None => forall|i: int|
                    0 <= i < self.layout.widget_areas().len() ==> self.layout.page_of_area(
                        #[trigger] self.layout.widget_areas()[i],
                    ) != page,
            },
    {
        self.layout.first(page)
    }

    /// Calculates the page of the widget.
    pub fn page_of(&self, widget: W) -> (r: Option<usize>)
        requires
            self.layout.wf(),
            self.layout.widget_areas().len() > 0 ==> self.layout.page_size_view().height > 0,
        ensures
            obeys_key_model::<W>() ==> match r {
                Some(p) => self.layout.key_map().contains_key(widget) && p
                    == self.layout.page_of_area(
                    self.layout.widget_areas()[self.layout.key_map()[widget] as int],
                ),
                None => !self.layout.key_map().contains_key(widget),
            },
    {
        self.layout.page_of(widget)
    }

    /// Show the page for this widget. Without a widget for the key the
    /// first page is shown.
    pub fn show(&mut self, widget: W)
        requires
            old(self).layout.wf(),
            old(self).layout.widget_areas().len() > 0 ==> old(
                self,
            ).layout.page_size_view().height > 0,
        ensures
            obeys_key_model::<W>() ==> final(self).page == page_in(
                if old(self).layout.key_map().contains_key(widget) {
                    old(self).layout.page_of_area(
                        old(self).layout.widget_areas()[old(self).layout.key_map()[widget] as int],
                    ) as usize
                } else {
                    0
                },
                old(self).layout.page_count_view(),
            ),
            final(self).layout == old(self).layout,
            final(self).focused == old(self).focused,
    {
        let page = match self.layout.page_of(widget) {
            Some(p) => p,
            None => 0,
        };
        self.set_page(page);
    }

    /// Set the visible page; the page is cut to the last page. Returns
    /// whether the page changed.
    pub fn set_page(&mut self, page: usize) -> (r: bool)
        ensures
            final(self).page == page_in(page, old(self).layout.page_count_view()),
            r == (old(self).page != final(self).page),
            final(self).layout == old(self).layout,
            final(self).focused == old(self).focused,
    {
        let old_page = self.page;
        let last = self.page_count().saturating_sub(1);
        self.page = if page <= last {
            page
        } else {
            last
        };
        old_page != self.page
    }

    /// Visible page
    pub fn page(&self) -> (r: usize)
        ensures
            r == self.page,
    {
        self.page
    }

    /// Select next page. Keeps the page in bounds: on the last page it
    /// stays, beyond it it goes back to the last one.
    pub fn next_page(&mut self) -> (r: bool)
        ensures
            ({
                let count = old(self).layout.page_count_view();
                final(self).page == (if old(self).page + 1 == count {
                    old(self).page
                } else if old(self).page + 1 > count {
                    last_page(count)
                } else {
                    (old(self).page + 1) as usize
                })
            }),
            r == (old(self).page != final(self).page),
            final(self).layout == old(self).layout,
            final(self).focused == old(self).focused,
    {
        let old_page = self.page;
        let count = self.page_count();
        if self.page < count && count - self.page == 1 {
            // don't change
        } else if self.page >= count {
            self.page = count.saturating_sub(1);
        } else {
            self.page = self.page + 1;
        }
        old_page != self.page
    }

    /// Select prev page.
    pub fn prev_page(&mut self) -> (r: bool)
        ensures
            final(self).page == (if old(self).page >= 1 {
                (old(self).page - 1) as usize
            } else {
                0
            }),
            r == (old(self).page >= 1),
            final(self).layout == old(self).layout,
            final(self).focused == old(self).focused,
    {
        if self.page >= 1 {
            self.page = self.page - 1;
            true
        } else {
            false
        }
    }
}

/// The area of the layout that the page shows: the page's rows, counted
/// with the page number cut to 16 bits, the multiplication saturating.
pub open spec fn spec_page_area(page: usize, page_size: Size) -> Rect {
    let p = page as u16;
    let y = if p * page_size.height > u16::MAX {
        u16::MAX
    } else {
        (p * page_size.height) as u16
    };
    Rect::spec_new(0, y, page_size.width, page_size.height)
}

/// The area of the layout that the page shows. An endless page has only
/// the first page.
pub fn page_area(page: usize, page_size: Size) -> (r: Rect)
    requires
        page_size.height < u16::MAX || page == 0,
    ensures
        r == spec_page_area(page, page_size),
{
    let p = #[verifier::truncate] (page as u16);
    let y = match p.checked_mul(page_size.height) {
        Some(v) => v,
        None => u16::MAX,
    };
    Rect::new(0, y, page_size.width, page_size.height)
}

/// The areas of the marks for the previous and the next page in the
/// first line of the area, at its left and right end; the first and the
/// last page show their own marks. An endless layout has none.
pub open spec fn spec_navigation_areas(
    area: Rect,
    page: usize,
    page_count: usize,
    endless: bool,
    prev_page: Seq<char>,
    next_page: Seq<char>,
    first_page: Seq<char>,
    last_page_mark: Seq<char>,
) -> (Rect, Rect) {
    if endless {
        (Rect::zero(), Rect::zero())
    } else {
        let p = mark_width(
            if page + 1 < page_count {
                next_page
            } else {
                last_page_mark
            },
        );
        (
            Rect::spec_new(
                area.x,
                area.y,
                mark_width(
                    if page > 0 {
                        prev_page
                    } else {
                        first_page
                    },
                ),
                1,
            ),
            Rect::spec_new((area.x + sat_sub(area.width, p)) as u16, area.y, p, 1),
        )
    }
}

/// The areas of the page marks for the previous and the next page.
pub fn navigation_areas(
    area: Rect,
    page: usize,
    page_count: usize,
    endless: bool,
    prev_page: &str,
    next_page: &str,
    first_page: &str,
    last_page_mark: &str,
) -> (r: (Rect, Rect))
    requires
        area.x + area.width <= u16::MAX,
        page < usize::MAX,
    ensures
        r == spec_navigation_areas(
            area,
            page,
            page_count,
            endless,
            prev_page@,
            next_page@,
            first_page@,
            last_page_mark@,
        ),
{
    if endless {
        let z = Rect { x: 0, y: 0, width: 0, height: 0 };
        return (z, z);
    }
    let prev = if page > 0 {
        prev_page
    } else {
        first_page
    };
    let prev_area = Rect::new(area.x, area.y, #[verifier::truncate] (text_width(prev) as u16), 1);
    let next = if page + 1 < page_count {
        next_page
    } else {
        last_page_mark
    };
    let p = #[verifier::truncate] (text_width(next) as u16);
    let next_area = Rect::new(area.x + area.width.saturating_sub(p), area.y, p, 1);
    (prev_area, next_area)
}

/// The layout area on the screen: clipped to the page, moved from the
/// page to the widget area, clipped to that; None where nothing of it is
/// visible.
pub open spec fn spec_form_locate(page_area: Rect, widget_area: Rect, area: Rect) -> Option<Rect> {
    let a = page_area.spec_intersection(area);
    if page_area.spec_intersects(a) {
        let located = widget_area.spec_intersection(
            Rect::spec_new(
                (a.x - page_area.x + widget_area.x) as u16,
                (a.y - page_area.y + widget_area.y) as u16,
                a.width,
                a.height,
            ),
        );
        if widget_area.spec_intersects(located) {
            Some(located)
        } else {
            None
        }
    } else {
        None
    }
}

/// Relocates an area of the layout to the screen, for the page shown in
/// the widget area. A result None indicates that the area is invisible.
pub fn locate_area(page_area: Rect, widget_area: Rect, area: Rect) -> (r: Option<Rect>)
    requires
        page_area.spec_intersects(page_area.spec_intersection(area)) ==> {
            let a = page_area.spec_intersection(area);
            &&& a.x - page_area.x + widget_area.x <= u16::MAX
            &&& a.y - page_area.y + widget_area.y <= u16::MAX
        },
    ensures
        r == spec_form_locate(page_area, widget_area, area),
{
    let a = page_area.intersection(area);
    if page_area.intersects(a) {
        let located = Rect::new(
            a.x - page_area.x + widget_area.x,
            a.y - page_area.y + widget_area.y,
            a.width,
            a.height,
        );
        let located = widget_area.intersection(located);
        if widget_area.intersects(located) {
            Some(located)
        } else {
            None
        }
    } else {
        None
    }
}


/// The page a paged form shows after going back a page.
pub open spec fn page_before(page: usize) -> usize {
    if page >= 1 { (page - 1) as usize } else { 0 }
}

/// The page a paged form with `count` pages shows after going forward a
/// page.
pub open spec fn page_after(page: usize, count: usize) -> usize {
    if page + 1 == count {
        page
    } else if page + 1 > count {
        last_page(count)
    } else {
        (page + 1) as usize
    }
}

impl<W> FormState<W> where W: Eq + Hash + Clone {
    /// The form pages: its layout is not endless.
    pub open spec fn is_paged(&self) -> bool {
        self.layout.area_view().height != u16::MAX
    }

    /// Handles a key press: on a paged form with the focus, Alt-PageUp
    /// and Alt-PageDown turn the page.
    pub fn handle_key(&mut self, key: KeyPress) -> (r: FormOutcome)
        ensures
            final(self).layout == old(self).layout,
            final(self).focused == old(self).focused,
            ({
                let count = old(self).layout.page_count_view();
                if old(self).focused && old(self).is_paged() && key.is(KeyCode::PageUp, false, false, true) {
                    &&& final(self).page == page_before(old(self).page)
                    &&& r == (if old(self).page >= 1 { FormOutcome::Page } else { FormOutcome::Continue })
                } else if old(self).focused && old(self).is_paged() && key.is(KeyCode::PageDown, false, false, true) {
                    &&& final(self).page == page_after(old(self).page, count)
                    &&& r == (if final(self).page != old(self).page { FormOutcome::Page } else { FormOutcome::Continue })
                } else {
                    final(self).page == old(self).page && r == FormOutcome::Continue
                }
            }),
    {
        if !self.focused || self.layout.is_endless() || key.shift || key.control || !key.alt {
            return FormOutcome::Continue;
        }
        if key.code == KeyCode::PageUp {
            if self.prev_page() { FormOutcome::Page } else { FormOutcome::Continue }
        } else if key.code == KeyCode::PageDown {
            if self.next_page() { FormOutcome::Page } else { FormOutcome::Continue }
        } else {
            FormOutcome::Continue
        }
    }

    /// Handles a mouse event on a paged form: a left click on the page
    /// marks or the wheel over the form turns the page. `hovered` is the
    /// mouse tracker's report that the hover over the page marks changed,
    /// asked only for events that nothing else takes.
    pub fn handle_mouse(&mut self, e: MouseInput, hovered: bool) -> (r: FormOutcome)
        ensures
            final(self).layout == old(self).layout,
            final(self).focused == old(self).focused,
            ({
                let count = old(self).layout.page_count_view();
                let (x, y) = (e.column, e.row);
                let click = e.is(MouseKind::LeftDown, false, false, false);
                let down = e.is(MouseKind::ScrollDown, false, false, false);
                let up = e.is(MouseKind::ScrollUp, false, false, false);
                let fwd = final(self).page != old(self).page;
                if !old(self).is_paged() {
                    final(self).page == old(self).page && r == FormOutcome::Continue
                } else if click && old(self).prev_area.spec_contains(x, y) {
                    &&& final(self).page == page_before(old(self).page)
                    &&& r == (if old(self).page >= 1 { FormOutcome::Page } else { FormOutcome::Unchanged })
                } else if click && old(self).next_area.spec_contains(x, y) {
                    &&& final(self).page == page_after(old(self).page, count)
                    &&& r == (if fwd { FormOutcome::Page } else { FormOutcome::Unchanged })
                } else if down {
                    if old(self).area.spec_contains(x, y) {
                        &&& final(self).page == page_after(old(self).page, count)
                        &&& r == (if fwd { FormOutcome::Page } else { FormOutcome::Continue })
                    } else {
                        final(self).page == old(self).page && r == FormOutcome::Continue
                    }
                } else if up {
                    if old(self).area.spec_contains(x, y) {
                        &&& final(self).page == page_before(old(self).page)
                        &&& r == (if old(self).page >= 1 { FormOutcome::Page } else { FormOutcome::Continue })
                    } else {
                        final(self).page == old(self).page && r == FormOutcome::Continue
                    }
                } else {
                    final(self).page == old(self).page && r == (if hovered { FormOutcome::Changed } else { FormOutcome::Continue })
                }
            }),
    {
        if self.layout.is_endless() {
            return FormOutcome::Continue;
        }
        let p = crate::geometry::Position { x: e.column, y: e.row };
        let plain = !e.shift && !e.control && !e.alt;
        if plain && e.kind == MouseKind::LeftDown && self.prev_area.contains(p) {
            if self.prev_page() { FormOutcome::Page } else { FormOutcome::Unchanged }
        } else if plain && e.kind == MouseKind::LeftDown && self.next_area.contains(p) {
            if self.next_page() { FormOutcome::Page } else { FormOutcome::Unchanged }
        } else if plain && e.kind == MouseKind::ScrollDown {
            if self.area.contains(p) && self.next_page() { FormOutcome::Page } else { FormOutcome::Continue }
        } else if plain && e.kind == MouseKind::ScrollUp {
            if self.area.contains(p) && self.prev_page() { FormOutcome::Page } else { FormOutcome::Continue }
        } else if hovered {
            FormOutcome::Changed
        } else {
            FormOutcome::Continue
        }
    }
}

} // verus!
