//!
//! Selection of a date range.
//!
use crate::calendar::date::{
    day_of_month, first_day_of_month, is_first_day_of_month, is_last_day_of_month, is_month_end,
    is_same_month, is_same_week, last_day_of_month, month_end_exists, month_first, month_last,
    opt_days, same_month, same_week, week_exists, week_first_day, week_last_day, weekday,
    weekday_index, Date,
};
use crate::calendar::CalendarSelection;
use vstd::prelude::*;
use vstd::set_lib::{lemma_int_range, set_int_range};

verus! {

/// Can select a date range.
///
/// The range is kept as an anchor, where the selection started, and a
/// lead, where it currently ends. The lead can lie before the anchor.
#[derive(Debug, Default, Clone, Copy)]
pub struct RangeSelection {
    /// (anchor, lead)
    sel: Option<(Date, Date)>,
}

/// Day numbers of an optional (anchor, lead) pair.
pub open spec fn pair_days(p: Option<(Date, Date)>) -> Option<(int, int)> {
    match p {
        Some((a, l)) => Some((a@, l@)),
        None => None,
    }
}

impl View for RangeSelection {
    /// (anchor, lead) as day numbers.
    type V = Option<(int, int)>;

    closed spec fn view(&self) -> Option<(int, int)> {
        pair_days(self.sel)
    }
}

/// Does the range between anchor and lead contain the day `x`?
pub open spec fn span_selects(sel: Option<(int, int)>, x: int) -> bool {
    match sel {
        Some((a, l)) => if l > a {
            a <= x <= l
        } else {
            l <= x <= a
        },
        None => false,
    }
}

/// Number of days between anchor and lead, both included.
pub open spec fn span_count(sel: Option<(int, int)>) -> nat {
    match sel {
        Some((a, l)) => (if l >= a {
            l - a + 1
        } else {
            a - l + 1
        }) as nat,
        None => 0,
    }
}

/// The range as (first, last) day.
pub open spec fn span_range(sel: Option<(int, int)>) -> Option<(int, int)> {
    match sel {
        Some((a, l)) => if l > a {
            Some((a, l))
        } else {
            Some((l, a))
        },
        None => None,
    }
}

/// Buffs up an (anchor, lead) pair to cover whole months, keeping its direction.
/// Returns the new (anchor, lead).
pub open spec fn month_fill(a: int, l: int) -> (int, int) {
    if l <= a {
        if day_of_month(l) != 1 || !is_month_end(a) {
            (month_last(a), month_first(l))
        } else {
            (a, l)
        }
    } else {
        if !is_month_end(l) || day_of_month(a) != 1 {
            (month_first(a), month_last(l))
        } else {
            (a, l)
        }
    }
}

/// Buffs up an (anchor, lead) pair to cover whole Monday-to-Sunday weeks,
/// keeping its direction. Returns the new (anchor, lead).
pub open spec fn week_fill(a: int, l: int) -> (int, int) {
    if l <= a {
        if weekday_index(l) != 0 || weekday_index(a) != 6 {
            (a + 6 - weekday_index(a), l - weekday_index(l))
        } else {
            (a, l)
        }
    } else {
        if weekday_index(l) != 6 || weekday_index(a) != 0 {
            (a - weekday_index(a), l + 6 - weekday_index(l))
        } else {
            (a, l)
        }
    }
}

/// Buffing a pair up to whole months moves each end to the matching end of
/// its month: the earlier end of the selection is the first day of its
/// month (it moved to it, or already was one), the later end is the last
/// day of its month (it moved to it, or already was one). The direction is
/// kept.
pub proof fn lemma_month_fill(a: int, l: int)
    ensures
        ({
            let (fa, fl) = month_fill(a, l);
            &&& l <= a ==> (fa == month_last(a) || fa == a && is_month_end(a)) && (fl == month_first(l)
                || fl == l && day_of_month(l) == 1)
            &&& l > a ==> (fl == month_last(l) || fl == l && is_month_end(l)) && (fa == month_first(a)
                || fa == a && day_of_month(a) == 1)
        }),
{
}

/// Buffing a pair up to whole weeks moves the earlier end back to the
/// Monday of its week and the later end on to the Sunday of its week: the
/// buffed selection holds the old one and runs from a Monday to a Sunday,
/// each end less than a week from where it was. The direction is kept.
pub proof fn lemma_week_fill(a: int, l: int)
    ensures
        ({
            let (fa, fl) = week_fill(a, l);
            let (lo, hi) = if l <= a { (fl, fa) } else { (fa, fl) };
            let (olo, ohi) = if l <= a { (l, a) } else { (a, l) };
            &&& (l <= a) == (fl <= fa)
            &&& weekday_index(lo) == 0
            &&& weekday_index(hi) == 6
            &&& lo <= olo && olo - lo < 7
            &&& ohi <= hi && hi - ohi < 7
        }),
{
}

/// Moves the lead of the filled (anchor, lead) pair to the span from `ns`
/// to `ne` (a whole unit), so that the selection takes it in.
///
/// When anchor and lead lie in one unit (`one_unit`), the selection may
/// change direction: a span before the anchor takes the lead to its start,
/// otherwise the old lead becomes the anchor and the lead goes to the
/// span's end (and the other way round for a pair that runs forward).
/// Otherwise the anchor stays and the lead moves, which can shrink the
/// selection: running backwards, the lead goes to the span's start where
/// the span ends at or before the anchor, else to its end; running
/// forward, to the span's end where the span starts at or after the
/// anchor, else to its start.
pub open spec fn shift_span(a: int, l: int, one_unit: bool, ns: int, ne: int) -> (int, int) {
    if one_unit {
        if l <= a {
            if ns < a { (a, ns) } else { (l, ne) }
        } else {
            if ns > a { (a, ne) } else { (l, ns) }
        }
    } else if l < a {
        if ns <= l || ne <= a { (a, ns) } else { (a, ne) }
    } else {
        if ns >= a { (a, ne) } else { (a, ns) }
    }
}

/// Moving the lead takes in the whole new span, where that span lies on
/// one side of the anchor (as a whole month or week does against a
/// buffed-up selection): the new lead is one end of the span, the span
/// lies between the new anchor and lead, and outside a single unit the
/// anchor stays where it was.
pub proof fn lemma_shift_span_takes_in_span(a: int, l: int, one_unit: bool, ns: int, ne: int)
    requires
        ns <= ne,
        ne <= a || ns > a,
    ensures
        ({
            let (na, nl) = shift_span(a, l, one_unit, ns, ne);
            &&& nl == ns || nl == ne
            &&& !one_unit ==> na == a
            &&& (if na <= nl { na } else { nl }) <= ns
            &&& ne <= (if na <= nl { nl } else { na })
        }),
{
}

/// The selection after selecting the month of day `d`.
pub open spec fn month_selection(sel: Option<(int, int)>, d: int, extend: bool) -> Option<(int, int)> {
    match sel {
        Some((a, l)) if extend => {
            let (fa, fl) = month_fill(a, l);
            Some(shift_span(fa, fl, same_month(fl, fa), month_first(d), month_last(d)))
        },
        _ => Some((month_last(d), month_first(d))),
    }
}

/// The selection after selecting the week of day `d`.
pub open spec fn week_selection(sel: Option<(int, int)>, d: int, extend: bool) -> Option<(int, int)> {
    match sel {
        Some((a, l)) if extend => {
            let (fa, fl) = week_fill(a, l);
            Some(
                shift_span(fa, fl, same_week(fl, fa), d - weekday_index(d), d + 6 - weekday_index(d)),
            )
        },
        _ => Some((d + 6 - weekday_index(d), d - weekday_index(d))),
    }
}

/// The selection after selecting day `d`.
pub open spec fn day_selection(sel: Option<(int, int)>, d: int, extend: bool) -> Option<(int, int)> {
    match sel {
        Some((a, _)) if extend => Some((a, d)),
        _ => Some((d, d)),
    }
}

/// Month operations are defined for all dates of the selection.
pub open spec fn month_ops_ok(sel: Option<(int, int)>) -> bool {
    sel matches Some((a, l)) ==> month_end_exists(a) && month_end_exists(l)
}

/// Week operations are defined for all dates of the selection.
pub open spec fn week_ops_ok(sel: Option<(int, int)>) -> bool {
    sel matches Some((a, l)) ==> week_exists(a) && week_exists(l)
}

/// Equal optional pairs of dates?
fn same_pair(x: Option<(Date, Date)>, y: Option<(Date, Date)>) -> (r: bool)
    ensures
        r == (pair_days(x) == pair_days(y)),
{
    match (x, y) {
        (Some((a0, l0)), Some((a1, l1))) => a0.num_days() == a1.num_days() && l0.num_days()
            == l1.num_days(),
        (None, None) => true,
        _ => false,
    }
}

impl RangeSelection {
    /// Empty selection.
    pub fn new() -> (r: Self)
        ensures
            r@ is None,
    {
        RangeSelection { sel: None }
    }

    /// Clear the selection.
    pub fn clear(&mut self)
        ensures
            final(self)@ is None,
    {
        self.sel = None;
    }

    /// Number of selected days.
    pub fn len(&self) -> (r: usize)
        ensures
            r == span_count(self@),
    {
        match self.sel {
            Some((anchor, lead)) => {
                let a = anchor.num_days() as i64;
                let l = lead.num_days() as i64;
                let diff: i64 = if l >= a {
                    l - a
                } else {
                    a - l
                };
                (diff + 1) as usize
            },
            None => 0,
        }
    }

    /// Select the month of the given date.
    ///
    /// If extend is used, this will extend the selection to include
    /// the new month. If the current selection doesn't cover full months
    /// it will be buffed up to do so afterwards.
    pub fn select_month(&mut self, date: Date, extend: bool) -> (r: bool)
        requires
            month_end_exists(date@),
            extend ==> month_ops_ok(old(self)@),
        ensures
            final(self)@ == month_selection(old(self)@, date@, extend),
            r == (final(self)@ != old(self)@),
            !extend ==> final(self).lead() == Some(month_first(date@)),
            !extend ==> forall|x: int|
                #![trigger span_selects(final(self)@, x)]
                span_selects(final(self)@, x) <==> month_first(date@) <= x <= month_last(date@),
            !extend ==> span_selects(final(self)@, date@),
    {
        let old = self.sel;

        let new_start = first_day_of_month(date);
        let new_end = last_day_of_month(date);

        let mut res = (new_end, new_start);
        if extend {
            if let Some((a0, l0)) = self.sel {
                let mut anchor = a0;
                let mut lead = l0;

                // fill out month
                if lead.num_days() <= anchor.num_days() {
                    if !is_first_day_of_month(lead) || !is_last_day_of_month(anchor) {
                        lead = first_day_of_month(lead);
                        anchor = last_day_of_month(anchor);
                    }
                } else {
                    if !is_last_day_of_month(lead) || !is_first_day_of_month(anchor) {
                        lead = last_day_of_month(lead);
                        anchor = first_day_of_month(anchor);
                    }
                }
                assert((anchor@, lead@) == month_fill(a0@, l0@));
                res = shift_pair(anchor, lead, is_same_month(lead, anchor), new_start, new_end);
            }
        }
        self.sel = Some(res);

        !same_pair(old, self.sel)
    }

    /// Select the week of the given date.
    ///
    /// If extend is used, this will extend the selection to include
    /// the new week. If the current selection doesn't cover full weeks
    /// it will be buffed up to do so afterwards.
    pub fn select_week(&mut self, date: Date, extend: bool) -> (r: bool)
        requires
            week_exists(date@),
            extend ==> week_ops_ok(old(self)@),
        ensures
            final(self)@ == week_selection(old(self)@, date@, extend),
            r == (final(self)@ != old(self)@),
            !extend ==> span_count(final(self)@) == 7,
            !extend ==> span_selects(final(self)@, date@),
            !extend ==> final(self).lead() == Some(date@ - weekday_index(date@)),
    {
        let old = self.sel;

        let new_start = week_first_day(date);
        let new_end = week_last_day(date);

        let mut res = (new_end, new_start);
        if extend {
            if let Some((a0, l0)) = self.sel {
                let mut anchor = a0;
                let mut lead = l0;

                // fill out week
                if lead.num_days() <= anchor.num_days() {
                    if weekday(lead) != 0 || weekday(anchor) != 6 {
                        lead = week_first_day(lead);
                        anchor = week_last_day(anchor);
                    }
                } else {
                    if weekday(lead) != 6 || weekday(anchor) != 0 {
                        lead = week_last_day(lead);
                        anchor = week_first_day(anchor);
                    }
                }
                assert((anchor@, lead@) == week_fill(a0@, l0@));
                res = shift_pair(anchor, lead, is_same_week(lead, anchor), new_start, new_end);
            }
        }
        self.sel = Some(res);

        !same_pair(old, self.sel)
    }

    /// Select a date.
    ///
    /// If extend is used, the lead moves to the date and the anchor stays.
    pub fn select_day(&mut self, date: Date, extend: bool) -> (r: bool)
        ensures
            final(self)@ == day_selection(old(self)@, date@, extend),
            r == (final(self)@ != old(self)@),
            !extend ==> span_count(final(self)@) == 1,
            !extend ==> forall|x: int|
                #![trigger span_selects(final(self)@, x)]
                span_selects(final(self)@, x) <==> x == date@,
            final(self).lead() == Some(date@),
    {
        let old = self.sel;

        let res = match self.sel {
            Some((anchor, _)) if extend => (anchor, date),
            _ => (date, date),
        };
        self.sel = Some(res);

        !same_pair(old, self.sel)
    }

    /// Select range as (anchor, lead) pair.
    pub fn select(&mut self, selection: (Date, Date)) -> (r: bool)
        ensures
            final(self)@ == Some((selection.0@, selection.1@)),
            r == (final(self)@ != old(self)@),
    {
        let old = self.sel;
        self.sel = Some(selection);
        !same_pair(old, self.sel)
    }

    /// Selection as (anchor, lead) pair.
    pub fn selected(&self) -> (r: Option<(Date, Date)>)
        ensures
            pair_days(r) == self@,
    {
        self.sel
    }

    /// Selection as (first, last) date, both included.
    pub fn selected_range(&self) -> (r: Option<(Date, Date)>)
        ensures
            pair_days(r) == span_range(self@),
    {
        match self.sel {
            Some((anchor, lead)) => if lead.num_days() > anchor.num_days() {
                Some((anchor, lead))
            } else {
                Some((lead, anchor))
            },
            None => None,
        }
    }
}

/// Moves the lead of the pair to the span from `new_start` to `new_end`;
/// see `shift_span`.
fn shift_pair(anchor: Date, lead: Date, one_unit: bool, new_start: Date, new_end: Date) -> (r: (Date, Date))
    ensures
        (r.0@, r.1@) == shift_span(anchor@, lead@, one_unit, new_start@, new_end@),
{
    let a = anchor.num_days();
    let l = lead.num_days();
    if one_unit {
        if l <= a {
            if new_start.num_days() < a { (anchor, new_start) } else { (lead, new_end) }
        } else {
            if new_start.num_days() > a { (anchor, new_end) } else { (lead, new_start) }
        }
    } else if l < a {
        if new_start.num_days() <= l || new_end.num_days() <= a { (anchor, new_start) } else { (anchor, new_end) }
    } else {
        if new_start.num_days() >= a { (anchor, new_end) } else { (anchor, new_start) }
    }
}

impl CalendarSelection for RangeSelection {
    open spec fn selects(&self, days: int) -> bool {
        span_selects(self@, days)
    }

    open spec fn selection_count(&self) -> nat {
        span_count(self@)
    }

    open spec fn lead(&self) -> Option<int> {
        match self@ {
            Some((a, l)) => Some(l),
            None => None,
        }
    }

    fn count(&self) -> (r: usize) {
        self.len()
    }

    fn is_selected(&self, date: Date) -> (r: bool) {
        match self.sel {
            Some((anchor, lead)) => {
                let a = anchor.num_days();
                let l = lead.num_days();
                let d = date.num_days();
                if l > a {
                    d >= a && d <= l
                } else {
                    d >= l && d <= a
                }
            },
            None => false,
        }
    }

    fn lead_selection(&self) -> (r: Option<Date>) {
        match self.sel {
            Some((_, lead)) => Some(lead),
            None => None,
        }
    }
}

/// The selected days of a selection, as a set of day numbers.
pub open spec fn selected_days(sel: Option<(int, int)>) -> Set<int> {
    Set::new(|x: int| span_selects(sel, x))
}

/// The count of a selection is the number of days it selects.
pub proof fn lemma_count_is_number_of_selected_days(sel: Option<(int, int)>)
    ensures
        selected_days(sel).finite(),
        selected_days(sel).len() == span_count(sel),
{
    match sel {
        Some((a, l)) => {
            let (lo, hi) = if l > a {
                (a, l)
            } else {
                (l, a)
            };
            assert(selected_days(sel) =~= set_int_range(lo, hi + 1));
            lemma_int_range(lo, hi + 1);
        },
        None => {
            assert(selected_days(sel) =~= Set::<int>::empty());
        },
    }
}

/// The range from `selected_range` holds exactly the selected days.
pub proof fn lemma_range_holds_selected_days(sel: Option<(int, int)>, x: int)
    requires
        sel is Some,
    ensures
        span_range(sel) matches Some((first, last)) && (span_selects(sel, x) <==> first <= x
            <= last),
{
}

/// Selecting the same day again changes nothing.
pub proof fn lemma_select_day_twice(sel: Option<(int, int)>, d: int, extend: bool)
    ensures
        day_selection(day_selection(sel, d, extend), d, extend) == day_selection(sel, d, extend),
{
}

/// Selecting the same month again, without extending, changes nothing.
pub proof fn lemma_select_month_twice(sel: Option<(int, int)>, d: int)
    ensures
        month_selection(month_selection(sel, d, false), d, false) == month_selection(sel, d, false),
{
}

/// Selecting the same week again, without extending, changes nothing.
pub proof fn lemma_select_week_twice(sel: Option<(int, int)>, d: int)
    ensures
        week_selection(week_selection(sel, d, false), d, false) == week_selection(sel, d, false),
{
}

/// Extending the selection to a day keeps its anchor; the day becomes the lead,
/// and every day between anchor and lead is selected.
pub proof fn lemma_extend_day_keeps_anchor(a: int, l: int, d: int, x: int)
    ensures
        day_selection(Some((a, l)), d, true) == Some((a, d)),
        (a <= x <= d || d <= x <= a) ==> span_selects(day_selection(Some((a, l)), d, true), x),
{
}

} // verus!
