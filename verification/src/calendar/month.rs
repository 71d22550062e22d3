//!
//! State of one month of a calendar: its start date, its selection and
//! the navigation within the month.
//!
use crate::calendar::date::{
    day0_exists, days_in_month, first_day_of_month, is_same_month, last_day_of_month, month_end_exists,
    month_first, month_last, month_length, opt_days, same_month, week_exists, week_first_day, week_last_day,
    weekday, weekday_index, with_day0, Date, EPOCH_DAYS, MAX_DAYS, MIN_DAYS,
};
use crate::calendar::event::CalOutcome;
use crate::calendar::selection::range_selection::{
    day_selection, week_ops_ok, week_selection, RangeSelection,
};
use crate::calendar::selection::single_selection::SingleSelection;
use crate::calendar::CalendarSelection;
use crate::geometry::Rect;
use vstd::prelude::*;

verus! {

/// State & event-handling of one month.
///
/// The areas are renewed for each render.
#[derive(Debug, Clone, Copy)]
pub struct MonthState<Selection> {
    /// Total area.
    pub area: Rect,
    /// Area inside the border.
    pub inner: Rect,
    /// Area of the calendar.
    pub area_cal: Rect,
    /// Area for the days of the month.
    pub area_days: [Rect; 31],
    /// Area for all the week numbers.
    pub area_weeknum: Rect,
    /// Area for the week numbers.
    pub area_weeks: [Rect; 6],
    /// Start date: the first of the month.
    /// __read only__: use `set_start_date` to change it.
    pub start_date: Date,
    /// Selection
    pub selection: Selection,
    /// Focus of the container, if part of a container.
    pub container_focused: Option<bool>,
    /// Focus
    pub focused: bool,
}

/// Number of weeks (Monday to Sunday) a month touches, given the day
/// numbers of its first and last day.
pub open spec fn weeks_between(first: int, last: int) -> int {
    let next_monday = first + 7 - weekday_index(first);
    1 + if next_monday <= last {
        (last - next_monday) / 7 + 1
    } else {
        0
    }
}

/// Number of weeks the month of the day touches.
pub open spec fn weeks_of_month(d: int) -> int {
    weeks_between(month_first(d), month_last(month_first(d)))
}

/// The day the lead moves to when going back `n` days within the month
/// `start..=end`; from outside the month it moves to the nearer end, and
/// without a lead to the end.
pub open spec fn prev_day_target(lead: Option<int>, start: int, end: int, n: int) -> int {
    match lead {
        Some(l) => if start <= l <= end {
            l - n
        } else if l < start {
            start
        } else {
            end
        },
        None => end,
    }
}

/// The day the lead moves to when going forward `n` days within the
/// month `start..=end`; without a lead to the start.
pub open spec fn next_day_target(lead: Option<int>, start: int, end: int, n: int) -> int {
    match lead {
        Some(l) => if start <= l <= end {
            l + n
        } else if l < start {
            start
        } else {
            end
        },
        None => start,
    }
}

/// Selected if the selection changed.
pub open spec fn selected_if(changed: bool) -> CalOutcome {
    if changed {
        CalOutcome::Selected
    } else {
        CalOutcome::Continue
    }
}

/// Lead of a range selection.
pub open spec fn range_lead(sel: Option<(int, int)>) -> Option<int> {
    match sel {
        Some((_, l)) => Some(l),
        None => None,
    }
}

/// A day of a month lies in one of the month's week rows: counted from
/// the row of the first day, the row of day `k` (0-based) is below the
/// number of weeks the month touches.
pub proof fn lemma_row_within_weeks(first: int, len: int, k: int)
    requires
        0 <= k < len,
        0 <= weekday_index(first) < 7,
    ensures
        0 <= (k + weekday_index(first)) / 7 < weeks_between(first, first + len - 1),
{
    let wd0 = weekday_index(first);
    let last = first + len - 1;
    let next_monday = first + 7 - wd0;
    if k + wd0 >= 7 {
        assert(next_monday <= last);
        assert((k + wd0) / 7 == 1 + (first + k - next_monday) / 7);
        assert((first + k - next_monday) / 7 <= (last - next_monday) / 7) by {
            vstd::arithmetic::div_mod::lemma_div_is_ordered(first + k - next_monday, last - next_monday, 7);
        }
    }
}

/// First row of the weeks: below the row of weekday names, if shown.
pub open spec fn weeks_top(inner: Rect, show_weekdays: bool) -> int {
    inner.y + if show_weekdays { 1int } else { 0int }
}

/// Area of the day with the 0-based index `k` of the month of `start`,
/// laid out from `top` in rows of weeks, Monday first, three columns per
/// day right of the three columns of week numbers, and cut to `inner`;
/// a day the month doesn't have gets no area.
pub open spec fn day_area(inner: Rect, top: int, start: int, k: int) -> Rect {
    let first = month_first(start);
    if day0_exists(start, k) {
        Rect::spec_new(
            (inner.x + 3 + 3 * weekday_index(first + k)) as u16,
            (top + (k + weekday_index(first)) / 7) as u16,
            2,
            1,
        ).spec_intersection(inner)
    } else {
        Rect::zero()
    }
}

/// Area of the week number of week `w` of a month of `weeks` weeks,
/// laid out from `top` and cut to `inner`; further weeks get no area.
pub open spec fn week_area(inner: Rect, top: int, weeks: int, w: int) -> Rect {
    if w < weeks {
        Rect::spec_new(inner.x, (top + w) as u16, 2, 1).spec_intersection(inner)
    } else {
        Rect::zero()
    }
}

impl<S> MonthState<S> {
    /// Day number of the start date.
    pub open spec fn start(&self) -> int {
        self.start_date@
    }

    /// Same areas and focus.
    pub open spec fn same_frame(&self, other: &Self) -> bool {
        &&& self.area == other.area
        &&& self.inner == other.inner
        &&& self.area_cal == other.area_cal
        &&& self.area_days == other.area_days
        &&& self.area_weeknum == other.area_weeknum
        &&& self.area_weeks == other.area_weeks
        &&& self.container_focused == other.container_focused
        &&& self.focused == other.focused
    }

    /// Lays out the month in `inner`, the area inside the block of `area`:
    /// the weeks start below the row of weekday names if those are shown;
    /// each week has its number in the first three columns and its days
    /// in three columns each from Monday on.
    pub fn layout(&mut self, area: Rect, inner: Rect, show_weekdays: bool)
        requires
            month_end_exists(old(self).start()),
            inner.x + 24 <= u16::MAX,
            weeks_top(inner, show_weekdays) + weeks_of_month(old(self).start()) <= u16::MAX,
        ensures
            final(self).area == area,
            final(self).inner == inner,
            final(self).start_date == old(self).start_date,
            final(self).selection == old(self).selection,
            final(self).focused == old(self).focused,
            final(self).container_focused == old(self).container_focused,
            ({
                let top = weeks_top(inner, show_weekdays);
                let weeks = weeks_of_month(old(self).start());
                &&& final(self).area_cal == Rect::spec_new((inner.x + 3) as u16, top as u16, 21, weeks as u16)
                &&& final(self).area_weeknum == Rect::spec_new(inner.x, top as u16, 3, weeks as u16)
                &&& forall|k: int| 0 <= k < 31 ==> #[trigger] final(self).area_days@[k] == day_area(inner, top, old(self).start(), k)
                &&& forall|w: int| 0 <= w < 6 ==> #[trigger] final(self).area_weeks@[w] == week_area(inner, top, weeks, w)
            }),
    {
        let weeks = self.week_len();
        let top: u16 = if show_weekdays { inner.y + 1 } else { inner.y };
        self.area = area;
        self.inner = inner;
        let len = days_in_month(self.start_date);
        let first = first_day_of_month(self.start_date);
        let wd0 = weekday(first);
        self.area_cal = Rect::new(inner.x + 3, top, 21, weeks as u16);
        self.area_weeknum = Rect::new(inner.x, top, 3, weeks as u16);
        let ghost start = self.start();
        let mut k: usize = 0;
        while k < 31
            invariant
                k <= 31,
                self.area == area,
                self.inner == inner,
                self.start_date == old(self).start_date,
                self.selection == old(self).selection,
                self.focused == old(self).focused,
                self.container_focused == old(self).container_focused,
                self.area_cal == Rect::spec_new((inner.x + 3) as u16, top as u16, 21, weeks as u16),
                self.area_weeknum == Rect::spec_new(inner.x, top as u16, 3, weeks as u16),
                start == self.start(),
                self.start() == old(self).start(),
                month_end_exists(start),
                len == month_length(start),
                28 <= len <= 31,
                first@ == month_first(start),
                wd0 == weekday_index(first@),
                wd0 < 7,
                top == weeks_top(inner, show_weekdays),
                inner.x + 24 <= u16::MAX,
                top + weeks <= u16::MAX,
                weeks == weeks_between(first@, first@ + len - 1),
                forall|j: int| 0 <= j < k ==> #[trigger] self.area_days@[j] == day_area(inner, top as int, start, j),
            decreases 31 - k,
        {
            let a = if (k as u32) < len {
                let d = match with_day0(self.start_date, k as u32) {
                    Some(d) => d,
                    None => first,
                };
                let wd = weekday(d);
                proof {
                    lemma_row_within_weeks(first@, len as int, k as int);
                }
                Rect::new(inner.x + 3 + 3 * (wd as u16), top + ((k as u32 + wd0) / 7) as u16, 2, 1).intersection(inner)
            } else {
                Rect { x: 0, y: 0, width: 0, height: 0 }
            };
            self.area_days[k] = a;
            k += 1;
        }
        let mut w: usize = 0;
        while w < 6
            invariant
                w <= 6,
                self.area == area,
                self.inner == inner,
                self.start_date == old(self).start_date,
                self.selection == old(self).selection,
                self.focused == old(self).focused,
                self.container_focused == old(self).container_focused,
                self.area_cal == Rect::spec_new((inner.x + 3) as u16, top as u16, 21, weeks as u16),
                self.area_weeknum == Rect::spec_new(inner.x, top as u16, 3, weeks as u16),
                4 <= weeks <= 6,
                weeks == weeks_of_month(old(self).start()),
                top == weeks_top(inner, show_weekdays),
                top + weeks <= u16::MAX,
                forall|j: int| 0 <= j < 31 ==> #[trigger] self.area_days@[j] == day_area(inner, top as int, old(self).start(), j),
                forall|j: int| 0 <= j < w ==> #[trigger] self.area_weeks@[j] == week_area(inner, top as int, weeks as int, j),
            decreases 6 - w,
        {
            let a = if w < weeks {
                Rect::new(inner.x, top + w as u16, 2, 1).intersection(inner)
            } else {
                Rect { x: 0, y: 0, width: 0, height: 0 }
            };
            self.area_weeks[w] = a;
            w += 1;
        }
    }

    /// New state for the given selection, starting with 1970-01.
    pub fn with_selection(selection: S) -> (r: Self)
        ensures
            r.start() == EPOCH_DAYS,
            r.selection == selection,
            !r.focused,
            r.container_focused is None,
    {
        let z = Rect { x: 0, y: 0, width: 0, height: 0 };
        MonthState {
            area: z,
            inner: z,
            area_cal: z,
            area_days: [z; 31],
            area_weeknum: z,
            area_weeks: [z; 6],
            start_date: Date::epoch(),
            selection,
            container_focused: None,
            focused: false,
        }
    }

    /// New state with the default selection, starting with 1970-01.
    pub fn new() -> (r: Self) where S: Default
        ensures
            r.start() == EPOCH_DAYS,
            !r.focused,
            r.container_focused is None,
    {
        Self::with_selection(S::default())
    }

    /// Sets the start-date of the calendar. You can set every date, it
    /// will always be changed to the first of the month.
    pub fn set_start_date(&mut self, date: Date) -> (r: bool)
        ensures
            final(self).start() == month_first(date@),
            final(self).start() <= date@,
            same_month(final(self).start(), date@),
            month_first(final(self).start()) == final(self).start(),
            month_last(final(self).start()) == month_last(date@),
            weeks_of_month(final(self).start()) == weeks_of_month(date@),
            r == (old(self).start() != final(self).start()),
            final(self).selection == old(self).selection,
            final(self).same_frame(old(self)),
    {
        let old_value = self.start_date.num_days();
        self.start_date = first_day_of_month(date);
        old_value != self.start_date.num_days()
    }

    /// Start date of this month. Will always be the first.
    pub fn start_date(&self) -> (r: Date)
        ensures
            r@ == self.start(),
    {
        self.start_date
    }

    /// End date of this month.
    pub fn end_date(&self) -> (r: Date)
        requires
            month_end_exists(self.start()),
        ensures
            r@ == month_last(self.start()),
            self.start() <= r@ <= self.start() + 30,
    {
        last_day_of_month(self.start_date)
    }

    /// Is the date in this month?
    fn in_range(&self, date: Date) -> (r: bool)
        requires
            month_end_exists(self.start()),
        ensures
            r == (self.start() <= date@ <= month_last(self.start())),
    {
        date.num_days() >= self.start_date.num_days() && date.num_days()
            <= self.end_date().num_days()
    }

    /// Nr of weeks in this month.
    pub fn week_len(&self) -> (r: usize)
        requires
            month_end_exists(self.start()),
        ensures
            r == weeks_of_month(self.start()),
            4 <= r <= 6,
    {
        Self::count_weeks(self.start_date)
    }

    /// Nr of weeks for the month of the given day: the weeks from Monday
    /// to Sunday that hold a day of it.
    pub fn count_weeks(day: Date) -> (r: usize)
        requires
            month_end_exists(day@),
        ensures
            r == weeks_of_month(day@),
            4 <= r <= 6,
    {
        let first = first_day_of_month(day);
        let last = last_day_of_month(first);
        // run through the first week
        let wd = weekday(first);
        let next_monday = first.num_days() as i64 + (7 - wd) as i64;
        let last = last.num_days() as i64;
        // count mondays
        if next_monday <= last {
            (1 + (last - next_monday) / 7 + 1) as usize
        } else {
            1
        }
    }
}

/// How a day is drawn: plain, as selected, or as the lead of a selection
/// of more than one day while the month or its container has the focus.
#[derive(Debug, Clone, Copy, PartialEq, Eq, Structural)]
pub enum DayMark {
    Plain,
    Selected,
    Lead,
}

impl<S: CalendarSelection> MonthState<S> {
    /// How the day with this day number is drawn.
    pub open spec fn spec_day_mark(&self, d: int) -> DayMark {
        if (self.container_focused == Some(true) || self.focused) && self.selection.selection_count() > 1
            && self.selection.lead() == Some(d) {
            DayMark::Lead
        } else if self.selection.selects(d) {
            DayMark::Selected
        } else {
            DayMark::Plain
        }
    }

    /// How the day is drawn: the lead of a selection of more than one
    /// day, while the month or its container has the focus, in the
    /// reverted select style; a selected day in the select style.
    pub fn day_mark(&self, day: Date) -> (r: DayMark)
        ensures
            r == self.spec_day_mark(day@),
    {
        let focused = match self.container_focused {
            Some(f) => f,
            None => false,
        } || self.focused;
        if focused && self.selection.count() > 1 && Date::same_date(self.selection.lead_selection(), Some(day)) {
            DayMark::Lead
        } else if self.selection.is_selected(day) {
            DayMark::Selected
        } else {
            DayMark::Plain
        }
    }

    /// The cell right of the day is drawn in the day's style, joining it
    /// to the next day: the day isn't a Sunday and the next day is
    /// selected.
    pub fn joins_next(&self, day: Date) -> (r: bool)
        requires
            day@ < MAX_DAYS,
        ensures
            r == (weekday_index(day@) != 6 && self.selection.selects(day@ + 1)),
    {
        if weekday(day) == 6 {
            return false;
        }
        match day.checked_add_days(1) {
            Some(next) => self.selection.is_selected(next),
            None => false,
        }
    }
}

impl MonthState<SingleSelection> {
    /// Removes all selection.
    pub fn clear_selection(&mut self)
        ensures
            final(self).selection@ is None,
            final(self).start() == old(self).start(),
            final(self).same_frame(old(self)),
    {
        self.selection.clear();
    }

    /// Select the day with the 0-based index `n` of the month, if the
    /// month has it. `n` is cut to 32 bits.
    pub fn select_day(&mut self, n: usize) -> (r: CalOutcome)
        ensures
            final(self).start() == old(self).start(),
            final(self).same_frame(old(self)),
            ({
                let d0 = (n as u32) as int;
                if d0 < 28 || day0_exists(old(self).start(), d0) {
                    let d = month_first(old(self).start()) + d0;
                    final(self).selection@ == Some(d) && r == selected_if(
                        old(self).selection@ != Some(d),
                    )
                } else {
                    final(self).selection@ == old(self).selection@ && r == CalOutcome::Continue
                }
            }),
    {
        match with_day0(self.start_date, #[verifier::truncate] (n as u32)) {
            Some(date) => {
                if self.selection.select(date) {
                    CalOutcome::Selected
                } else {
                    CalOutcome::Continue
                }
            },
            None => CalOutcome::Continue,
        }
    }

    /// Select the last day of the month.
    pub fn select_last(&mut self) -> (r: CalOutcome)
        requires
            month_end_exists(old(self).start()),
        ensures
            final(self).start() == old(self).start(),
            final(self).same_frame(old(self)),
            final(self).selection@ == Some(month_last(old(self).start())),
            r == selected_if(old(self).selection@ != Some(month_last(old(self).start()))),
    {
        let date = self.end_date();
        if self.selection.select(date) {
            CalOutcome::Selected
        } else {
            CalOutcome::Continue
        }
    }

    /// Select by date.
    /// Returns true if the date is valid for this month.
    /// If false it doesn't change the selection.
    pub fn select_date(&mut self, d: Date) -> (r: bool)
        ensures
            final(self).start() == old(self).start(),
            final(self).same_frame(old(self)),
            r == same_month(d@, old(self).start()),
            r ==> final(self).selection@ == Some(d@),
            !r ==> final(self).selection@ == old(self).selection@,
    {
        if is_same_month(d, self.start_date) {
            self.selection.select(d);
            true
        } else {
            false
        }
    }

    /// Lead selected day
    pub fn selected_date(&self) -> (r: Option<Date>)
        ensures
            opt_days(r) == self.selection@,
    {
        self.selection.lead_selection()
    }

    /// Select the day `n` days before the selected one, if that is in
    /// this month. Without a selection the last day is selected; from a
    /// selection outside the month the nearer end.
    pub fn prev_day(&mut self, n: usize) -> (r: CalOutcome)
        requires
            month_end_exists(old(self).start()),
            old(self).selection@ matches Some(l) ==> (old(self).start() <= l <= month_last(old(self).start()) ==> l - n
                >= MIN_DAYS),
        ensures
            final(self).start() == old(self).start(),
            final(self).same_frame(old(self)),
            ({
                let start = old(self).start();
                let end = month_last(start);
                let t = prev_day_target(old(self).selection@, start, end, n as int);
                if start <= t <= end {
                    final(self).selection@ == Some(t) && r == selected_if(
                        old(self).selection@ != Some(t),
                    )
                } else {
                    final(self).selection@ == old(self).selection@ && r == CalOutcome::Continue
                }
            }),
    {
        let base_start = self.start_date();
        let base_end = self.end_date();

        let date = match self.selection.lead_selection() {
            Some(date) => if date.num_days() >= base_start.num_days() && date.num_days()
                <= base_end.num_days() {
                date.checked_sub_days(n as u64).unwrap()
            } else if date.num_days() < base_start.num_days() {
                base_start
            } else {
                base_end
            },
            None => base_end,
        };

        if self.in_range(date) {
            if self.selection.select(date) {
                CalOutcome::Selected
            } else {
                CalOutcome::Continue
            }
        } else {
            CalOutcome::Continue
        }
    }

    /// Select the day `n` days after the selected one, if that is in
    /// this month. Without a selection the first day is selected; from a
    /// selection outside the month the nearer end.
    pub fn next_day(&mut self, n: usize) -> (r: CalOutcome)
        requires
            month_end_exists(old(self).start()),
            old(self).selection@ matches Some(l) ==> (old(self).start() <= l <= month_last(old(self).start()) ==> l + n
                <= MAX_DAYS),
        ensures
            final(self).start() == old(self).start(),
            final(self).same_frame(old(self)),
            ({
                let start = old(self).start();
                let end = month_last(start);
                let t = next_day_target(old(self).selection@, start, end, n as int);
                if start <= t <= end {
                    final(self).selection@ == Some(t) && r == selected_if(
                        old(self).selection@ != Some(t),
                    )
                } else {
                    final(self).selection@ == old(self).selection@ && r == CalOutcome::Continue
                }
            }),
    {
        let base_start = self.start_date();
        let base_end = self.end_date();

        let date = match self.selection.lead_selection() {
            Some(date) => if date.num_days() >= base_start.num_days() && date.num_days()
                <= base_end.num_days() {
                date.checked_add_days(n as u64).unwrap()
            } else if date.num_days() < base_start.num_days() {
                base_start
            } else {
                base_end
            },
            None => base_start,
        };

        if self.in_range(date) {
            if self.selection.select(date) {
                CalOutcome::Selected
            } else {
                CalOutcome::Continue
            }
        } else {
            CalOutcome::Continue
        }
    }
}

/// Last day of the Monday-to-Sunday week of the day.
pub open spec fn week_end(d: int) -> int {
    d + 6 - weekday_index(d)
}

/// The day the week selection moves to when going forward `n` weeks: from
/// a lead whose week ends in the month `start..=end` by `n` weeks, else to
/// the nearer end of the month; without a lead to the start.
pub open spec fn next_week_target(lead: Option<int>, start: int, end: int, n: int) -> int {
    match lead {
        Some(l) => if start <= week_end(l) <= end {
            l + 7 * n
        } else if week_end(l) < start {
            start
        } else {
            end
        },
        None => start,
    }
}

impl MonthState<RangeSelection> {
    /// Removes all selection.
    pub fn clear_selection(&mut self)
        ensures
            final(self).selection@ is None,
            final(self).start() == old(self).start(),
            final(self).same_frame(old(self)),
    {
        self.selection.clear();
    }

    /// Select the week with the 0-based index `n` of the month, if the
    /// month has it.
    pub fn select_week(&mut self, n: usize, extend: bool) -> (r: CalOutcome)
        requires
            MIN_DAYS + 6 <= old(self).start(),
            old(self).start() + 41 <= MAX_DAYS,
            extend ==> week_ops_ok(old(self).selection@),
        ensures
            final(self).start() == old(self).start(),
            final(self).same_frame(old(self)),
            n < weeks_of_month(old(self).start()) ==> {
                let d = old(self).start() + 7 * n;
                &&& final(self).selection@ == week_selection(old(self).selection@, d, extend)
                &&& r == selected_if(final(self).selection@ != old(self).selection@)
            },
            n >= weeks_of_month(old(self).start()) ==> final(self).selection@ == old(
                self,
            ).selection@ && r == CalOutcome::Continue,
    {
        if n < self.week_len() {
            let date = self.start_date.checked_add_days(7 * n as u64).unwrap();
            if self.selection.select_week(date, extend) {
                CalOutcome::Selected
            } else {
                CalOutcome::Continue
            }
        } else {
            CalOutcome::Continue
        }
    }

    /// Select the day with the 0-based index `n` of the month, if the
    /// month has it. `n` is cut to 32 bits.
    pub fn select_day(&mut self, n: usize, extend: bool) -> (r: CalOutcome)
        ensures
            final(self).start() == old(self).start(),
            final(self).same_frame(old(self)),
            ({
                let d0 = (n as u32) as int;
                if d0 < 28 || day0_exists(old(self).start(), d0) {
                    let d = month_first(old(self).start()) + d0;
                    &&& final(self).selection@ == day_selection(old(self).selection@, d, extend)
                    &&& r == selected_if(final(self).selection@ != old(self).selection@)
                } else {
                    final(self).selection@ == old(self).selection@ && r == CalOutcome::Continue
                }
            }),
    {
        match with_day0(self.start_date, #[verifier::truncate] (n as u32)) {
            Some(date) => {
                if self.selection.select_day(date, extend) {
                    CalOutcome::Selected
                } else {
                    CalOutcome::Continue
                }
            },
            None => CalOutcome::Continue,
        }
    }

    /// Select the last day of the month.
    pub fn select_last(&mut self, extend: bool) -> (r: CalOutcome)
        requires
            month_end_exists(old(self).start()),
        ensures
            final(self).start() == old(self).start(),
            final(self).same_frame(old(self)),
            final(self).selection@ == day_selection(
                old(self).selection@,
                month_last(old(self).start()),
                extend,
            ),
            r == selected_if(final(self).selection@ != old(self).selection@),
    {
        let date = self.end_date();
        if self.selection.select_day(date, extend) {
            CalOutcome::Selected
        } else {
            CalOutcome::Continue
        }
    }

    /// Select the week of the date, if it touches this month.
    /// Returns true if this changed the selection; if the week lies
    /// outside the month the selection stays as it is.
    pub fn select_week_by_date(&mut self, date: Date, extend: bool) -> (r: bool)
        requires
            MIN_DAYS + 12 <= date@ <= MAX_DAYS - 6,
            extend ==> week_ops_ok(old(self).selection@),
        ensures
            final(self).start() == old(self).start(),
            final(self).same_frame(old(self)),
            ({
                let s = date@ - weekday_index(date@);
                let e = week_end(date@);
                if same_month(s, old(self).start()) || same_month(e, old(self).start()) {
                    &&& final(self).selection@ == week_selection(old(self).selection@, s, extend)
                    &&& r == (final(self).selection@ != old(self).selection@)
                } else {
                    final(self).selection@ == old(self).selection@ && !r
                }
            }),
    {
        let start = week_first_day(date);
        let end = week_last_day(date);
        if is_same_month(start, self.start_date) || is_same_month(end, self.start_date) {
            self.selection.select_week(start, extend)
        } else {
            false
        }
    }

    /// Select by date.
    /// Returns true if the date is valid for this month.
    /// If false it doesn't change the selection.
    pub fn select_date(&mut self, d: Date, extend: bool) -> (r: bool)
        ensures
            final(self).start() == old(self).start(),
            final(self).same_frame(old(self)),
            r == same_month(d@, old(self).start()),
            r ==> final(self).selection@ == day_selection(old(self).selection@, d@, extend),
            !r ==> final(self).selection@ == old(self).selection@,
    {
        if is_same_month(d, self.start_date) {
            self.selection.select_day(d, extend);
            true
        } else {
            false
        }
    }

    /// Lead selected day
    pub fn selected_date(&self) -> (r: Option<Date>)
        ensures
            opt_days(r) == range_lead(self.selection@),
    {
        self.selection.lead_selection()
    }

    /// Select the day `n` days before the lead, if that is in this month.
    /// Without a selection the last day is selected; from a lead outside
    /// the month the nearer end.
    pub fn prev_day(&mut self, n: usize, extend: bool) -> (r: CalOutcome)
        requires
            month_end_exists(old(self).start()),
            range_lead(old(self).selection@) matches Some(l) ==> (old(self).start() <= l <= month_last(old(self).start())
                ==> l - n >= MIN_DAYS),
        ensures
            final(self).start() == old(self).start(),
            final(self).same_frame(old(self)),
            ({
                let start = old(self).start();
                let end = month_last(start);
                let t = prev_day_target(range_lead(old(self).selection@), start, end, n as int);
                if start <= t <= end {
                    &&& final(self).selection@ == day_selection(old(self).selection@, t, extend)
                    &&& r == selected_if(final(self).selection@ != old(self).selection@)
                } else {
                    final(self).selection@ == old(self).selection@ && r == CalOutcome::Continue
                }
            }),
    {
        let base_start = self.start_date();
        let base_end = self.end_date();

        let date = match self.selection.lead_selection() {
            Some(date) => if date.num_days() >= base_start.num_days() && date.num_days()
                <= base_end.num_days() {
                date.checked_sub_days(n as u64).unwrap()
            } else if date.num_days() < base_start.num_days() {
                base_start
            } else {
                base_end
            },
            None => base_end,
        };

        if self.in_range(date) {
            if self.selection.select_day(date, extend) {
                CalOutcome::Selected
            } else {
                CalOutcome::Continue
            }
        } else {
            CalOutcome::Continue
        }
    }

    /// Select the day `n` days after the lead, if that is in this month.
    /// Without a selection the first day is selected; from a lead outside
    /// the month the nearer end.
    pub fn next_day(&mut self, n: usize, extend: bool) -> (r: CalOutcome)
        requires
            month_end_exists(old(self).start()),
            range_lead(old(self).selection@) matches Some(l) ==> (old(self).start() <= l <= month_last(old(self).start())
                ==> l + n <= MAX_DAYS),
        ensures
            final(self).start() == old(self).start(),
            final(self).same_frame(old(self)),
            ({
                let start = old(self).start();
                let end = month_last(start);
                let t = next_day_target(range_lead(old(self).selection@), start, end, n as int);
                if start <= t <= end {
                    &&& final(self).selection@ == day_selection(old(self).selection@, t, extend)
                    &&& r == selected_if(final(self).selection@ != old(self).selection@)
                } else {
                    final(self).selection@ == old(self).selection@ && r == CalOutcome::Continue
                }
            }),
    {
        let base_start = self.start_date();
        let base_end = self.end_date();

        let date = match self.selection.lead_selection() {
            Some(date) => if date.num_days() >= base_start.num_days() && date.num_days()
                <= base_end.num_days() {
                date.checked_add_days(n as u64).unwrap()
            } else if date.num_days() < base_start.num_days() {
                base_start
            } else {
                base_end
            },
            None => base_start,
        };

        if self.in_range(date) {
            if self.selection.select_day(date, extend) {
                CalOutcome::Selected
            } else {
                CalOutcome::Continue
            }
        } else {
            CalOutcome::Continue
        }
    }

    /// Select the week `n` weeks before the lead, if its week ends in this
    /// month. Without a selection the last week is selected; from a lead
    /// outside the month the week of the nearer end.
    pub fn prev_week(&mut self, n: usize, extend: bool) -> (r: CalOutcome)
        requires
            MIN_DAYS + 6 <= old(self).start(),
            old(self).start() + 36 <= MAX_DAYS,
            range_lead(old(self).selection@) matches Some(l) ==> (old(self).start() <= l <= month_last(old(self).start())
                ==> l - 7 * n >= MIN_DAYS + 6),
            extend ==> week_ops_ok(old(self).selection@),
        ensures
            final(self).start() == old(self).start(),
            final(self).same_frame(old(self)),
            ({
                let start = old(self).start();
                let end = month_last(start);
                let lead = range_lead(old(self).selection@);
                let t = prev_day_target(lead, start, end, 7 * n);
                if lead is None || start <= week_end(t) <= end {
                    &&& final(self).selection@ == week_selection(old(self).selection@, t, extend)
                    &&& r == selected_if(final(self).selection@ != old(self).selection@)
                } else {
                    final(self).selection@ == old(self).selection@ && r == CalOutcome::Continue
                }
            }),
    {
        let base_start = self.start_date();
        let base_end = self.end_date();

        match self.selection.lead_selection() {
            Some(date) => {
                let new_date = if date.num_days() >= base_start.num_days() && date.num_days()
                    <= base_end.num_days() {
                    date.checked_sub_days(7 * n as u64).unwrap()
                } else if date.num_days() < base_start.num_days() {
                    base_start
                } else {
                    base_end
                };
                let new_date_end = week_last_day(new_date);
                if new_date_end.num_days() >= base_start.num_days() && new_date_end.num_days()
                    <= base_end.num_days() {
                    if self.selection.select_week(new_date, extend) {
                        CalOutcome::Selected
                    } else {
                        CalOutcome::Continue
                    }
                } else {
                    CalOutcome::Continue
                }
            },
            None => {
                if self.selection.select_week(base_end, extend) {
                    CalOutcome::Selected
                } else {
                    CalOutcome::Continue
                }
            },
        }
    }

    /// Select the week `n` weeks after the lead, if that lies in this
    /// month. Without a selection the first week is selected; from a lead
    /// whose week ends outside the month the week of the nearer end.
    pub fn next_week(&mut self, n: usize, extend: bool) -> (r: CalOutcome)
        requires
            MIN_DAYS + 6 <= old(self).start(),
            old(self).start() + 36 <= MAX_DAYS,
            range_lead(old(self).selection@) matches Some(l) ==> week_exists(l) && (old(self).start() <= week_end(l)
                <= month_last(old(self).start()) ==> l + 7 * n <= MAX_DAYS),
            extend ==> week_ops_ok(old(self).selection@),
        ensures
            final(self).start() == old(self).start(),
            final(self).same_frame(old(self)),
            ({
                let start = old(self).start();
                let end = month_last(start);
                let t = next_week_target(range_lead(old(self).selection@), start, end, n as int);
                if start <= t <= end {
                    &&& final(self).selection@ == week_selection(old(self).selection@, t, extend)
                    &&& r == selected_if(final(self).selection@ != old(self).selection@)
                } else {
                    final(self).selection@ == old(self).selection@ && r == CalOutcome::Continue
                }
            }),
    {
        let start = self.start_date();
        let end = self.end_date();

        let new_date = match self.selection.lead_selection() {
            Some(date) => {
                let date_end = week_last_day(date);
                if date_end.num_days() >= start.num_days() && date_end.num_days()
                    <= end.num_days() {
                    date.checked_add_days(7 * n as u64).unwrap()
                } else if date_end.num_days() < start.num_days() {
                    start
                } else {
                    end
                }
            },
            None => start,
        };

        if new_date.num_days() >= start.num_days() && new_date.num_days() <= end.num_days() {
            if self.selection.select_week(new_date, extend) {
                CalOutcome::Selected
            } else {
                CalOutcome::Continue
            }
        } else {
            CalOutcome::Continue
        }
    }
}

} // verus!
