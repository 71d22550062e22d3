//!
//! A calendar of several consecutive months, with one selection and
//! navigation that scrolls the months when it leaves them.
//!
use crate::calendar::date::{
    add_months, opt_days, month, month_of, week_exists, week_last_day, month_end_exists, month_first, month_index, month_last, months_earlier,
    months_later, sub_months, Date, MAX_DAYS, MIN_DAYS,
};
use crate::calendar::event::CalOutcome;
use crate::calendar::month::MonthState;
use crate::calendar::month::{range_lead, selected_if, week_end};
use crate::calendar::month_event::{
    range_after, range_key_step, range_mouse_after, range_mouse_ready, range_ready, single_after,
    single_key_step, single_ready, MonthStep,
};
use crate::event::{KeyCode, KeyPress, MouseInput, MouseKind};
use crate::calendar::selection::no_selection::NoSelection;
use crate::calendar::selection::range_selection::{
    day_selection, month_ops_ok, month_selection, pair_days, span_range, week_ops_ok,
    week_selection, RangeSelection,
};
use crate::calendar::selection::single_selection::SingleSelection;
use crate::calendar::{CalendarSelection, TodayPolicy};
use crate::geometry::Rect;
use vstd::prelude::*;

verus! {

/// Day number `n` months after `d`, or `d` where chrono has no such date.
pub open spec fn later(d: int, n: int) -> int {
    match months_later(d, n) {
        Some(x) => x,
        None => d,
    }
}

/// Day number `n` months before `d`, or `d` where chrono has no such date.
pub open spec fn earlier(d: int, n: int) -> int {
    match months_earlier(d, n) {
        Some(x) => x,
        None => d,
    }
}

/// The date the `i`-th month is set from when the calendar is set from
/// the date `d`: each one month after the one before.
pub open spec fn month_chain(d: int, i: nat) -> int
    decreases i,
{
    if i == 0 {
        d
    } else {
        later(month_chain(d, (i - 1) as nat), 1)
    }
}

/// Does the month that starts on `start` hold the day `d`?
pub open spec fn month_holds(start: int, d: int) -> bool {
    start <= d <= month_last(start)
}

/// The last of the first `i` months that holds the day `d`.
pub open spec fn last_holding(months: Seq<MonthState<()>>, d: int, i: int) -> Option<int>
    decreases i,
{
    if i <= 0 {
        None
    } else if month_holds(months[i - 1].start(), d) {
        Some(i - 1)
    } else {
        last_holding(months, d, i - 1)
    }
}

///
/// Several [MonthState] that together behave like a calendar: the months
/// follow each other, one of them is the primary month, and all of them
/// show one selection.
///
/// The layout is left to the user, this takes care of all the rest.
///
#[derive(Debug, Clone)]
pub struct CalendarState<const N: usize, Selection> {
    /// Complete area
    /// __read only__. renewed for each render.
    pub area: Rect,
    /// Area inside the block.
    /// __read only__. renewed for each render.
    pub inner: Rect,
    /// Step-size when navigating outside the displayed calendar.
    step: usize,
    /// Behavior of move_to_today.
    home: TodayPolicy,
    /// Primary month.
    primary_idx: usize,
    /// Months, `N` of them.
    pub months: Vec<MonthState<()>>,
    /// Selection model, shown by all months.
    pub selection: Selection,
    /// Calendar focus.
    pub focused: bool,
}

impl<const N: usize, S> CalendarState<N, S> {
    /// The months.
    pub closed spec fn month_seq(&self) -> Seq<MonthState<()>> {
        self.months@
    }

    /// The selection.
    pub closed spec fn sel(&self) -> S {
        self.selection
    }

    /// Has the calendar the focus?
    pub closed spec fn has_focus(&self) -> bool {
        self.focused
    }

    /// Total area and area inside the block.
    pub closed spec fn areas(&self) -> (Rect, Rect) {
        (self.area, self.inner)
    }

    /// Step-size when navigating outside the displayed calendar.
    pub closed spec fn step_len(&self) -> int {
        self.step as int
    }

    /// Behavior of move_to_today.
    pub closed spec fn policy(&self) -> TodayPolicy {
        self.home
    }

    /// Index of the primary month.
    pub closed spec fn primary(&self) -> int {
        self.primary_idx as int
    }

    /// The calendar has its `N` months, and `N` is not 0.
    pub open spec fn wf(&self) -> bool {
        &&& N > 0
        &&& self.month_seq().len() == N
    }

    /// Start day number of the `i`-th month.
    pub open spec fn start_of(&self, i: int) -> int {
        self.month_seq()[i].start()
    }

    /// The months start where the other calendar's do.
    pub open spec fn same_starts(&self, other: &Self) -> bool {
        &&& self.month_seq().len() == other.month_seq().len()
        &&& forall|i: int|
            0 <= i < self.month_seq().len() ==> #[trigger] self.start_of(i) == other.start_of(i)
    }

    /// Step, policy, primary month, areas, selection and focus unchanged.
    pub open spec fn same_settings(&self, other: &Self) -> bool {
        &&& self.step_len() == other.step_len()
        &&& self.policy() == other.policy()
        &&& self.primary() == other.primary()
        &&& self.areas() == other.areas()
        &&& self.sel() == other.sel()
        &&& self.has_focus() == other.has_focus()
    }

    /// The calendar after focusing the month with index `n`: with the
    /// focus, that month becomes the primary one and the only focused one;
    /// without the focus nothing changes.
    pub open spec fn focus_moved(&self, before: &Self, n: int) -> bool {
        &&& self.same_starts(before)
        &&& self.step_len() == before.step_len()
        &&& self.policy() == before.policy()
        &&& self.sel() == before.sel()
        &&& self.has_focus() == before.has_focus()
        &&& self.areas() == before.areas()
        &&& before.has_focus() ==> {
            &&& self.primary() == (if 0 <= n < self.month_seq().len() {
                n
            } else {
                before.primary()
            })
            &&& forall|i: int|
                0 <= i < self.month_seq().len() ==> #[trigger] self.month_seq()[i].focused == (i
                    == n)
        }
        &&& !before.has_focus() ==> *self == *before
    }

    /// The months keep their areas and focus.
    pub open spec fn same_month_frames(&self, other: &Self) -> bool {
        &&& self.month_seq().len() == other.month_seq().len()
        &&& forall|i: int|
            0 <= i < self.month_seq().len() ==> #[trigger] self.month_seq()[i].same_frame(&other.month_seq()[i])
    }

    /// The months start with the month of `d` and follow each other.
    pub open spec fn starts_from(&self, d: int) -> bool {
        forall|i: int|
            0 <= i < self.month_seq().len() ==> #[trigger] self.start_of(i) == month_first(
                month_chain(d, i as nat),
            ) && month_index(self.start_of(i)) == month_index(d) + i
    }

    /// The months are the consecutive months from the month index `k` on.
    pub open spec fn shows_months_from(&self, k: int) -> bool {
        forall|i: int|
            0 <= i < self.month_seq().len() ==> #[trigger] month_index(self.start_of(i)) == k + i
    }

    /// The months can give their last day.
    pub open spec fn ends_exist(&self) -> bool {
        forall|i: int| 0 <= i < self.month_seq().len() ==> month_end_exists(#[trigger] self.start_of(i))
    }

    /// Empty calendar: `N` months from 1970-01, step 1, the first month
    /// primary.
    pub fn with_selection(selection: S) -> (r: Self)
        ensures
            r.month_seq().len() == N,
            r.step_len() == 1,
            r.policy() == TodayPolicy::Index(0),
            r.primary() == 0,
            r.sel() == selection,
            !r.has_focus(),
    {
        let mut months: Vec<MonthState<()>> = Vec::new();
        let mut i: usize = 0;
        while i < N
            invariant
                i <= N,
                months.len() == i,
            decreases N - i,
        {
            months.push(MonthState::with_selection(()));
            i = i + 1;
        }
        let z = Rect { x: 0, y: 0, width: 0, height: 0 };
        CalendarState {
            area: z,
            inner: z,
            step: 1,
            home: TodayPolicy::Index(0),
            primary_idx: 0,
            months,
            selection,
            focused: false,
        }
    }

    /// Empty calendar with the default selection.
    pub fn new() -> (r: Self) where S: Default
        ensures
            r.month_seq().len() == N,
            r.step_len() == 1,
            r.policy() == TodayPolicy::Index(0),
            r.primary() == 0,
            !r.has_focus(),
    {
        Self::with_selection(S::default())
    }

    /// Step-size when navigating outside the displayed calendar.
    ///
    /// You can do a rolling calendar which goes back 1 month
    /// or a yearly calendar which goes back 12 months.
    /// Or any other value you like.
    ///
    /// If you set step to 0 this kind of navigation is
    /// deactivated.
    ///
    /// Default is 1.
    pub fn set_step(&mut self, step: usize)
        ensures
            final(self).step_len() == step,
            final(self).policy() == old(self).policy(),
            final(self).primary() == old(self).primary(),
            final(self).month_seq() == old(self).month_seq(),
            final(self).sel() == old(self).sel(),
            final(self).has_focus() == old(self).has_focus(),
    {
        self.step = step;
    }

    /// Step-size when navigating outside the displayed calendar.
    pub fn step(&self) -> (r: usize)
        ensures
            r == self.step_len(),
    {
        self.step
    }

    /// How should move_to_today() work. An index must name one of the
    /// months.
    pub fn set_today_policy(&mut self, home: TodayPolicy)
        requires
            home matches TodayPolicy::Index(idx) ==> idx < N,
        ensures
            final(self).policy() == home,
            final(self).step_len() == old(self).step_len(),
            final(self).primary() == old(self).primary(),
            final(self).month_seq() == old(self).month_seq(),
            final(self).sel() == old(self).sel(),
            final(self).has_focus() == old(self).has_focus(),
    {
        self.home = home;
    }

    /// How should move_to_today() work.
    pub fn today_policy(&mut self) -> (r: TodayPolicy)
        ensures
            r == old(self).policy(),
            *final(self) == *old(self),
    {
        self.home
    }

    /// Set the primary month for the calendar.
    ///
    /// The primary month will be focused with Tab navigation.
    /// That means you can jump over all calendar months with just
    /// one Tab.
    pub fn set_primary_idx(&mut self, primary: usize)
        requires
            primary < N,
        ensures
            final(self).primary() == primary,
            final(self).step_len() == old(self).step_len(),
            final(self).policy() == old(self).policy(),
            final(self).month_seq() == old(self).month_seq(),
            final(self).sel() == old(self).sel(),
            final(self).has_focus() == old(self).has_focus(),
            final(self).areas() == old(self).areas(),
    {
        self.primary_idx = primary;
    }

    /// The primary month for the calendar.
    pub fn primary_idx(&self) -> (r: usize)
        ensures
            r == self.primary(),
    {
        self.primary_idx
    }

    /// Set the start-date for the calendar.
    /// This will set the start-date for each month: the first month
    /// starts with the month of the date, each next month one month later.
    pub fn set_start_date(&mut self, date: Date)
        requires
            old(self).wf(),
            date@ + 31 * N <= MAX_DAYS,
        ensures
            final(self).wf(),
            final(self).starts_from(date@),
            final(self).ends_exist(),
            final(self).same_month_frames(old(self)),
            final(self).same_settings(old(self)),
    {
        let mut date = date;
        let ghost d0 = date@;
        let mut i: usize = 0;
        while i < self.months.len()
            invariant
                self.wf(),
                i <= N,
                d0 + 31 * N <= MAX_DAYS,
                date@ == month_chain(d0, i as nat),
                d0 <= date@ <= d0 + 31 * i,
                month_index(date@) == month_index(d0) + i,
                forall|j: int|
                    0 <= j < i ==> #[trigger] self.start_of(j) == month_first(
                        month_chain(d0, j as nat),
                    ) && month_index(self.start_of(j)) == month_index(d0) + j,
                forall|j: int| 0 <= j < i ==> #[trigger] self.start_of(j) <= d0 + 31 * j,
                forall|j: int| i <= j < N ==> #[trigger] self.months@[j] == old(self).month_seq()[j],
                self.same_month_frames(old(self)),
                self.same_settings(old(self)),
            decreases N - i,
        {
            let ghost before = *self;
            let mut m = self.months[i];
            m.set_start_date(date);
            self.months.set(i, m);
            assert forall|j: int| 0 <= j < i + 1 implies #[trigger] self.start_of(j) == month_first(
                month_chain(d0, j as nat),
            ) && month_index(self.start_of(j)) == month_index(d0) + j by {
                if j < i {
                    assert(self.month_seq()[j] == before.month_seq()[j]);
                    assert(before.start_of(j) == month_first(month_chain(d0, j as nat)));
                }
            }
            assert forall|j: int| 0 <= j < i + 1 implies #[trigger] self.start_of(j) <= d0 + 31
                * j by {
                if j < i {
                    assert(self.month_seq()[j] == before.month_seq()[j]);
                    assert(before.start_of(j) <= d0 + 31 * j);
                }
            }
            date = add_months(date, 1).unwrap();
            i = i + 1;
        }
        assert forall|j: int| 0 <= j < self.month_seq().len() implies month_end_exists(
            #[trigger] self.start_of(j),
        ) by {
            assert(self.start_of(j) <= d0 + 31 * j);
        }
    }

    /// Start-date of the calendar.
    pub fn start_date(&self) -> (r: Date)
        requires
            self.wf(),
        ensures
            r@ == self.start_of(0),
    {
        self.months[0].start_date()
    }

    /// End-date of the calendar: the last day of its last month.
    pub fn end_date(&self) -> (r: Date)
        requires
            self.wf(),
            month_end_exists(self.start_of(N - 1)),
        ensures
            r@ == month_last(self.start_of(N - 1)),
            self.start_of(N - 1) <= r@ <= self.start_of(N - 1) + 30,
    {
        self.months[N - 1].end_date()
    }

    /// Scrolls the calendar `n` months forward, `n` cut to 32 bits.
    /// Doesn't change any selection.
    pub fn scroll_forward(&mut self, n: usize) -> (r: CalOutcome)
        requires
            old(self).wf(),
            n != 0 ==> old(self).start_of(0) + 31 * ((n as u32) + N) <= MAX_DAYS,
        ensures
            final(self).wf(),
            final(self).same_month_frames(old(self)),
            final(self).same_settings(old(self)),
            n == 0 ==> *final(self) == *old(self) && r == CalOutcome::Continue,
            n != 0 ==> final(self).starts_from(later(old(self).start_of(0), (n as u32) as int))
                && final(self).ends_exist() && r == CalOutcome::Changed,
            n != 0 ==> final(self).shows_months_from(month_index(old(self).start_of(0)) + (n as u32)),
    {
        if n == 0 {
            return CalOutcome::Continue;
        }
        let k: u32 = #[verifier::truncate] (n as u32);
        let start = add_months(self.months[0].start_date(), k).unwrap();
        self.set_start_date(start);
        CalOutcome::Changed
    }

    /// Scrolls the calendar `n` months back, `n` cut to 32 bits.
    /// Doesn't change any selection.
    pub fn scroll_back(&mut self, n: usize) -> (r: CalOutcome)
        requires
            old(self).wf(),
            n != 0 ==> old(self).start_of(0) - 31 * (n as u32) - 3 >= MIN_DAYS,
            n != 0 ==> old(self).start_of(0) + 31 * N <= MAX_DAYS,
        ensures
            final(self).wf(),
            final(self).same_month_frames(old(self)),
            final(self).same_settings(old(self)),
            n == 0 ==> *final(self) == *old(self) && r == CalOutcome::Continue,
            n != 0 ==> final(self).starts_from(earlier(old(self).start_of(0), (n as u32) as int))
                && final(self).ends_exist() && r == CalOutcome::Changed,
            n != 0 ==> final(self).shows_months_from(month_index(old(self).start_of(0)) - (n as u32)),
    {
        if n == 0 {
            return CalOutcome::Continue;
        }
        let k: u32 = #[verifier::truncate] (n as u32);
        let start = sub_months(self.months[0].start_date(), k).unwrap();
        self.set_start_date(start);
        CalOutcome::Changed
    }

    /// Scrolls the calendar so that the primary month shows the month of
    /// the date. Doesn't change any selection.
    pub fn scroll_to(&mut self, date: Date) -> (r: CalOutcome)
        requires
            old(self).wf(),
            date@ - 31 * (old(self).primary() as u32) - 3 >= MIN_DAYS,
            date@ + 31 * N <= MAX_DAYS,
        ensures
            final(self).wf(),
            final(self).same_month_frames(old(self)),
            final(self).same_settings(old(self)),
            final(self).starts_from(earlier(date@, (old(self).primary() as u32) as int)),
            final(self).ends_exist(),
            r == CalOutcome::Changed,
    {
        let k: u32 = #[verifier::truncate] (self.primary_idx as u32);
        let start = sub_months(date, k).unwrap();
        self.set_start_date(start);
        CalOutcome::Changed
    }

    /// Returns None
    pub fn screen_cursor(&self) -> (r: Option<(u16, u16)>)
        ensures
            r is None,
    {
        None
    }

    /// Focuses the month with index `n`, if the calendar has the focus:
    /// it becomes the primary month and the others lose the focus.
    /// Changed if the primary month changed.
    fn focus_n(&mut self, n: usize) -> (r: CalOutcome)
        requires
            old(self).wf(),
        ensures
            final(self).wf(),
            final(self).focus_moved(old(self), n as int),
            r == (if old(self).has_focus() && n < N && old(self).primary() != n {
                CalOutcome::Changed
            } else {
                CalOutcome::Continue
            }),
    {
        let mut r = CalOutcome::Continue;
        if self.focused {
            let mut i: usize = 0;
            while i < self.months.len()
                invariant
                    self.wf(),
                    i <= N,
                    self.focused,
                    self.same_starts(old(self)),
                    self.step_len() == old(self).step_len(),
                    self.policy() == old(self).policy(),
                    self.sel() == old(self).sel(),
                    self.areas() == old(self).areas(),
                    self.primary() == (if n < i {
                        n as int
                    } else {
                        old(self).primary()
                    }),
                    r == (if n < i && old(self).primary() != n {
                        CalOutcome::Changed
                    } else {
                        CalOutcome::Continue
                    }),
                    forall|j: int| 0 <= j < i ==> #[trigger] self.months@[j].focused == (j == n),
                decreases N - i,
            {
                let ghost before = *self;
                let mut m = self.months[i];
                if i == n {
                    if self.primary_idx != i {
                        r = CalOutcome::Changed;
                    }
                    self.primary_idx = i;
                    m.focused = true;
                } else {
                    m.focused = false;
                }
                self.months.set(i, m);
                assert forall|j: int| 0 <= j < N implies #[trigger] self.start_of(j)
                    == old(self).start_of(j) by {
                    assert(before.start_of(j) == old(self).start_of(j));
                }
                assert forall|j: int| 0 <= j < i + 1 implies #[trigger] self.month_seq()[j].focused
                    == (j == n) by {
                    if j < i {
                        assert(self.month_seq()[j] == before.month_seq()[j]);
                    }
                }
                i = i + 1;
            }
        }
        r
    }
}

impl<const N: usize, S> CalendarState<N, S> {
    /// After focusing the month of the day `l`: with the calendar focused,
    /// exactly the months that hold `l` have the focus and the last of them
    /// is the primary month; otherwise the primary month stays `primary`.
    pub open spec fn focused_on(&self, primary: int, l: int) -> bool {
        &&& self.has_focus() ==> forall|i: int|
            0 <= i < self.month_seq().len() ==> #[trigger] self.month_seq()[i].focused
                == month_holds(self.start_of(i), l)
        &&& self.primary() == if self.has_focus() {
            match last_holding(self.month_seq(), l, self.month_seq().len() as int) {
                Some(k) => k,
                None => primary,
            }
        } else {
            primary
        }
    }
}

/// The last holding month holds the day, and no later one does; without
/// one, none of the months holds the day.
proof fn lemma_last_holding(months: Seq<MonthState<()>>, d: int, i: int)
    requires
        0 <= i <= months.len(),
    ensures
        last_holding(months, d, i) matches Some(k) ==> {
            &&& 0 <= k < i
            &&& month_holds(months[k].start(), d)
            &&& forall|j: int| k < j < i ==> !month_holds(#[trigger] months[j].start(), d)
        },
        last_holding(months, d, i) is None ==> forall|j: int|
            0 <= j < i ==> !month_holds(#[trigger] months[j].start(), d),
    decreases i,
{
    if i > 0 {
        lemma_last_holding(months, d, i - 1);
    }
}

/// The last holding month only depends on the months' starts.
proof fn lemma_last_holding_starts(a: Seq<MonthState<()>>, b: Seq<MonthState<()>>, d: int, i: int)
    requires
        a.len() == b.len(),
        0 <= i <= a.len(),
        forall|j: int| 0 <= j < a.len() ==> #[trigger] a[j].start() == b[j].start(),
    ensures
        last_holding(a, d, i) == last_holding(b, d, i),
    decreases i,
{
    if i > 0 {
        lemma_last_holding_starts(a, b, d, i - 1);
    }
}

impl<const N: usize, S: CalendarSelection> CalendarState<N, S> {
    /// Is the date selected?
    pub fn is_selected(&self, date: Date) -> (r: bool)
        ensures
            r == self.sel().selects(date@),
    {
        self.selection.is_selected(date)
    }

    /// Lead selection.
    pub fn lead_selection(&self) -> (r: Option<Date>)
        ensures
            opt_days(r) == self.sel().lead(),
    {
        self.selection.lead_selection()
    }

    /// Focuses the months that hold the lead selection, if the calendar
    /// has the focus, and makes the last of them the primary month.
    /// Changed if a month other than the primary one holds the lead.
    fn focus_lead(&mut self) -> (r: CalOutcome)
        requires
            old(self).wf(),
            old(self).ends_exist(),
        ensures
            final(self).wf(),
            final(self).same_starts(old(self)),
            final(self).step_len() == old(self).step_len(),
            final(self).policy() == old(self).policy(),
            final(self).sel() == old(self).sel(),
            final(self).has_focus() == old(self).has_focus(),
            final(self).areas() == old(self).areas(),
            final(self).ends_exist(),
            old(self).sel().lead() is None || !old(self).has_focus() ==> *final(self) == *old(self)
                && r == CalOutcome::Continue,
            old(self).sel().lead() matches Some(l) ==> final(self).focused_on(old(self).primary(), l),
            old(self).sel().lead() matches Some(l) ==> (old(self).has_focus() ==> r == if exists|
                k: int|
                0 <= k < N && #[trigger] month_holds(old(self).start_of(k), l) && k
                    != old(self).primary() {
                CalOutcome::Changed
            } else {
                CalOutcome::Continue
            }),
    {
        let lead = match self.selection.lead_selection() {
            Some(lead) => lead,
            None => {
                return CalOutcome::Continue;
            },
        };
        let ghost l = lead@;
        let mut r = CalOutcome::Continue;
        if self.focused {
            let mut i: usize = 0;
            while i < self.months.len()
                invariant
                    self.wf(),
                    i <= N,
                    self.focused,
                    l == lead@,
                    self.same_starts(old(self)),
                    self.ends_exist(),
                    self.step_len() == old(self).step_len(),
                    self.policy() == old(self).policy(),
                    self.sel() == old(self).sel(),
                    self.areas() == old(self).areas(),
                    self.primary() == match last_holding(old(self).month_seq(), l, i as int) {
                        Some(k) => k,
                        None => old(self).primary(),
                    },
                    r == if exists|k: int|
                        0 <= k < i && #[trigger] month_holds(old(self).start_of(k), l) && k
                            != old(self).primary() {
                        CalOutcome::Changed
                    } else {
                        CalOutcome::Continue
                    },
                    forall|j: int|
                        0 <= j < i ==> #[trigger] self.month_seq()[j].focused == month_holds(
                            self.start_of(j),
                            l,
                        ),
                decreases N - i,
            {
                let ghost before = *self;
                let mut m = self.months[i];
                assert(self.start_of(i as int) == old(self).start_of(i as int));
                assert(month_end_exists(self.start_of(i as int)));
                let end = m.end_date();
                proof {
                    lemma_last_holding(old(self).month_seq(), l, i as int);
                }
                if lead.num_days() >= m.start_date.num_days() && lead.num_days() <= end.num_days() {
                    assert(month_holds(old(self).start_of(i as int), l));
                    if self.primary_idx != i {
                        r = CalOutcome::Changed;
                        proof {
                            if old(self).primary() == i {
                                let k = last_holding(old(self).month_seq(), l, i as int)->0;
                                assert(month_holds(old(self).start_of(k), l));
                            }
                        }
                    }
                    self.primary_idx = i;
                    m.focused = true;
                } else {
                    assert(!month_holds(old(self).start_of(i as int), l));
                    m.focused = false;
                }
                self.months.set(i, m);
                assert forall|j: int| 0 <= j < N implies #[trigger] self.start_of(j)
                    == old(self).start_of(j) by {
                    assert(before.start_of(j) == old(self).start_of(j));
                }
                assert(self.ends_exist()) by {
                    assert forall|j: int| 0 <= j < N implies month_end_exists(
                        #[trigger] self.start_of(j),
                    ) by {
                        assert(before.start_of(j) == self.start_of(j));
                        assert(month_end_exists(before.start_of(j)));
                    }
                }
                assert forall|j: int| 0 <= j < i + 1 implies #[trigger] self.month_seq()[j].focused
                    == month_holds(self.start_of(j), l) by {
                    if j < i {
                        assert(self.month_seq()[j] == before.month_seq()[j]);
                    }
                }
                i = i + 1;
            }
            proof {
                assert forall|j: int| 0 <= j < N implies #[trigger] self.month_seq()[j].start()
                    == old(self).month_seq()[j].start() by {
                    assert(self.start_of(j) == old(self).start_of(j));
                }
                lemma_last_holding_starts(self.month_seq(), old(self).month_seq(), l, N as int);
            }
        }
        r
    }
}

impl<const N: usize, S> CalendarState<N, S> {
    /// The calendar can scroll back by its step.
    pub open spec fn can_scroll_back(&self) -> bool {
        self.step_len() > 0 ==> self.start_of(0) - 31 * (self.step_len() as u32) - 3 >= MIN_DAYS
            && self.start_of(0) + 31 * N <= MAX_DAYS
    }

    /// The calendar can scroll forward by its step.
    pub open spec fn can_scroll_forward(&self) -> bool {
        self.step_len() > 0 ==> self.start_of(0) + 31 * ((self.step_len() as u32) + N) <= MAX_DAYS
    }

    /// `move_to` can move to the day `d`.
    pub open spec fn can_move_to(&self, d: int) -> bool {
        &&& d + 31 * N <= MAX_DAYS
        &&& self.policy() is Year ==> d - 31 * 11 - 3 >= MIN_DAYS
        &&& self.policy() matches TodayPolicy::Index(p) ==> d - 31 * (p as u32) - 3 >= MIN_DAYS
    }

    /// The calendar after moving to a date: the months are set from
    /// `start`, the month with index `p` is the primary one and, with the
    /// focus, the only focused one.
    pub open spec fn moved_to(&self, before: &Self, start: int, p: int) -> bool {
        &&& self.wf()
        &&& self.starts_from(start)
        &&& self.ends_exist()
        &&& self.primary() == p
        &&& self.step_len() == before.step_len()
        &&& self.policy() == before.policy()
        &&& self.sel() == before.sel()
        &&& self.has_focus() == before.has_focus()
        &&& self.areas() == before.areas()
        &&& self.has_focus() ==> forall|i: int|
            0 <= i < self.month_seq().len() ==> #[trigger] self.month_seq()[i].focused == (i == p)
    }

    /// Primary index and start of the calendar for moving to the date
    /// with the given policy: the month of the date becomes the primary
    /// month with the given index, or for a yearly calendar the months
    /// start with January.
    pub open spec fn move_plan(policy: TodayPolicy, d: int) -> (int, int) {
        match policy {
            TodayPolicy::Index(p) => (p as int, earlier(d, (p as u32) as int)),
            TodayPolicy::Year => (month_of(d) - 1, earlier(d, month_of(d) - 1)),
        }
    }

    /// Sets the months and the primary month for moving to the date.
    fn move_months(&mut self, date: Date)
        requires
            old(self).wf(),
            old(self).can_move_to(date@),
        ensures
            ({
                let (p, start) = Self::move_plan(old(self).policy(), date@);
                &&& final(self).wf()
                &&& final(self).starts_from(start)
                &&& final(self).ends_exist()
                &&& final(self).primary() == p
                &&& final(self).step_len() == old(self).step_len()
                &&& final(self).policy() == old(self).policy()
                &&& final(self).sel() == old(self).sel()
                &&& final(self).has_focus() == old(self).has_focus()
                &&& final(self).areas() == old(self).areas()
            }),
    {
        match self.home {
            TodayPolicy::Index(primary) => {
                self.primary_idx = primary;
                let k: u32 = #[verifier::truncate] (primary as u32);
                self.set_start_date(sub_months(date, k).unwrap());
            },
            TodayPolicy::Year => {
                let month0 = month(date) - 1;
                self.primary_idx = month0 as usize;
                self.set_start_date(sub_months(date, month0).unwrap());
            },
        }
    }
}

impl<const N: usize> CalendarState<N, NoSelection> {
    /// The calendar after moving `n` months back from the primary month:
    /// while that month is shown, the month before the primary one gets
    /// the focus; else the calendar scrolls back by its step, if it has
    /// one.
    pub open spec fn month_moved_back(&self, before: &Self, n: usize, r: CalOutcome) -> bool {
        let p = before.primary();
        let prev = earlier(before.start_of(p), (n as u32) as int);
        &&& self.wf()
        &&& if prev >= before.start_of(0) {
            self.focus_moved(before, p - 1) && r == CalOutcome::Changed
        } else if before.step_len() > 0 {
            &&& self.starts_from(earlier(before.start_of(0), (before.step_len() as u32) as int))
            &&& self.same_month_frames(before)
            &&& self.same_settings(before)
            &&& r == CalOutcome::Changed
        } else {
            *self == *before && r == CalOutcome::Continue
        }
    }

    /// The calendar after moving `n` months forward from the primary
    /// month; see `month_moved_back`.
    pub open spec fn month_moved_forward(&self, before: &Self, n: usize, r: CalOutcome) -> bool {
        let p = before.primary();
        let next = later(before.start_of(p), (n as u32) as int);
        &&& self.wf()
        &&& if next <= month_last(before.start_of(N - 1)) {
            self.focus_moved(before, p + 1) && r == CalOutcome::Changed
        } else if before.step_len() > 0 {
            &&& self.starts_from(later(before.start_of(0), (before.step_len() as u32) as int))
            &&& self.same_month_frames(before)
            &&& self.same_settings(before)
            &&& r == CalOutcome::Changed
        } else {
            *self == *before && r == CalOutcome::Continue
        }
    }

    /// Move to the previous month. Scrolls the calendar if necessary.
    ///
    /// While the month `n` months before the primary month is still
    /// shown, the month before the primary one gets the focus; otherwise
    /// the calendar scrolls back by the step.
    pub fn prev_month(&mut self, n: usize) -> (r: CalOutcome)
        requires
            old(self).wf(),
            old(self).primary() < N,
            old(self).start_of(old(self).primary()) - 31 * (n as u32) - 3 >= MIN_DAYS,
            old(self).primary() == 0 ==> (n as u32) != 0,
            old(self).step_len() > 0 ==> old(self).start_of(0) - 31 * (old(self).step_len() as u32)
                - 3 >= MIN_DAYS && old(self).start_of(0) + 31 * N <= MAX_DAYS,
        ensures
            final(self).month_moved_back(old(self), n, r),
    {
        let base_start = self.start_date();
        let date = self.months[self.primary_idx].start_date();

        let k: u32 = #[verifier::truncate] (n as u32);
        let prev = sub_months(date, k).unwrap();

        if prev.num_days() >= base_start.num_days() {
            self.focus_n(self.primary_idx - 1);
            CalOutcome::Changed
        } else if self.step > 0 {
            self.scroll_back(self.step)
        } else {
            CalOutcome::Continue
        }
    }

    /// Move to the next month. Scrolls the calendar if necessary.
    ///
    /// While the month `n` months after the primary month is still
    /// shown, the month after the primary one gets the focus; otherwise
    /// the calendar scrolls forward by the step.
    pub fn next_month(&mut self, n: usize) -> (r: CalOutcome)
        requires
            old(self).wf(),
            old(self).primary() < N,
            month_end_exists(old(self).start_of(N - 1)),
            old(self).start_of(old(self).primary()) + 31 * (n as u32) <= MAX_DAYS,
            old(self).step_len() > 0 ==> old(self).start_of(0) + 31 * ((old(self).step_len() as u32)
                + N) <= MAX_DAYS,
        ensures
            final(self).month_moved_forward(old(self), n, r),
    {
        let base_end = self.end_date();
        let date = self.months[self.primary_idx].start_date();

        let k: u32 = #[verifier::truncate] (n as u32);
        let next = add_months(date, k).unwrap();

        if next.num_days() <= base_end.num_days() {
            self.focus_n(self.primary_idx + 1);
            CalOutcome::Changed
        } else if self.step > 0 {
            self.scroll_forward(self.step)
        } else {
            CalOutcome::Continue
        }
    }

    /// Move the calendar to show the given date.
    ///
    /// Resets the start-dates according to the [TodayPolicy] and focuses
    /// the primary month.
    pub fn move_to(&mut self, date: Date) -> (r: CalOutcome)
        requires
            old(self).wf(),
            old(self).can_move_to(date@),
        ensures
            ({
                let (p, start) = Self::move_plan(old(self).policy(), date@);
                final(self).moved_to(old(self), start, p)
            }),
            r == CalOutcome::Changed,
    {
        self.move_months(date);
        self.focus_n(self.primary_idx);
        CalOutcome::Changed
    }
}

/// The day a move back by `months` months and `days` days reaches: from a
/// lead in the calendar `s..=e`, else from outside to the nearer end, and
/// without a lead to the end.
pub open spec fn back_target(lead: Option<int>, s: int, e: int, months: int, days: int) -> int {
    match lead {
        Some(l) => if s <= l <= e {
            earlier(l, months) - days
        } else if l < s {
            s
        } else {
            e
        },
        None => e,
    }
}

/// The day a move forward by `months` months and `days` days reaches: from
/// a lead in the calendar `s..=e`, else from outside to the nearer end, and
/// without a lead to the start.
pub open spec fn forward_target(lead: Option<int>, s: int, e: int, months: int, days: int) -> int {
    match lead {
        Some(l) => if s <= l <= e {
            later(l, months) + days
        } else if l < s {
            s
        } else {
            e
        },
        None => s,
    }
}

impl<const N: usize, S> CalendarState<N, S> {
    /// Step, policy, areas and focus unchanged.
    pub open spec fn same_frame(&self, other: &Self) -> bool {
        &&& self.step_len() == other.step_len()
        &&& self.policy() == other.policy()
        &&& self.areas() == other.areas()
        &&& self.has_focus() == other.has_focus()
    }

    /// Last day of the calendar.
    pub open spec fn last_day(&self) -> int {
        month_last(self.start_of(N - 1))
    }

    /// Months with the same starts are set from the same date and can give
    /// their last days alike.
    proof fn lemma_same_starts(&self, other: &Self, d: int)
        requires
            self.same_starts(other),
        ensures
            other.ends_exist() ==> self.ends_exist(),
            other.starts_from(d) ==> self.starts_from(d),
    {
        assert forall|i: int| 0 <= i < self.month_seq().len() implies other.start_of(i)
            == #[trigger] self.start_of(i) by {}
    }
}

impl<const N: usize> CalendarState<N, SingleSelection> {
    /// Clear the selection.
    pub fn clear_selection(&mut self)
        ensures
            final(self).sel()@ is None,
            final(self).month_seq() == old(self).month_seq(),
            final(self).primary() == old(self).primary(),
            final(self).same_frame(old(self)),
    {
        self.selection.clear();
    }

    /// Select the given date.
    /// Doesn't scroll the calendar.
    pub fn select(&mut self, date: Date) -> (r: bool)
        ensures
            final(self).sel()@ == Some(date@),
            r == (old(self).sel()@ != Some(date@)),
            final(self).month_seq() == old(self).month_seq(),
            final(self).primary() == old(self).primary(),
            final(self).same_frame(old(self)),
    {
        self.selection.select(date)
    }

    /// Selected date.
    pub fn selected(&self) -> (r: Option<Date>)
        ensures
            opt_days(r) == self.sel()@,
    {
        self.selection.selected()
    }

    /// Move the calendar to show the given date.
    ///
    /// Resets the start-dates according to the [TodayPolicy], selects the
    /// date and focuses its month.
    pub fn move_to(&mut self, date: Date) -> (r: CalOutcome)
        requires
            old(self).wf(),
            old(self).can_move_to(date@),
        ensures
            ({
                let (p, start) = Self::move_plan(old(self).policy(), date@);
                &&& final(self).wf()
                &&& final(self).starts_from(start)
                &&& final(self).ends_exist()
                &&& final(self).focused_on(p, date@)
                &&& final(self).same_frame(old(self))
            }),
            final(self).sel()@ == Some(date@),
            r == if old(self).sel()@ != Some(date@) {
                CalOutcome::Selected
            } else {
                CalOutcome::Changed
            },
    {
        let mut r = CalOutcome::Changed;
        if self.selection.select(date) {
            r = CalOutcome::Selected;
        }
        self.move_months(date);
        self.focus_lead();
        r
    }

    /// Select the day `n` days before the selected one.
    /// Scrolls the calendar if necessary.
    pub fn prev_day(&mut self, n: usize) -> (r: CalOutcome)
        requires
            old(self).wf(),
            old(self).ends_exist(),
            old(self).sel()@ matches Some(l) ==> (old(self).start_of(0) <= l ==> l - 3 - n
                >= MIN_DAYS),
            old(self).step_len() > 0 ==> old(self).start_of(0) - 31 * (old(self).step_len() as u32)
                - 3 >= MIN_DAYS && old(self).start_of(0) + 31 * N <= MAX_DAYS,
        ensures
            final(self).wf(),
            final(self).moved_back(old(self), 0, n as int, r),
    {
        self.prev(0, n as u64)
    }

    /// Select the day `n` days after the selected one.
    /// Scrolls the calendar if necessary.
    pub fn next_day(&mut self, n: usize) -> (r: CalOutcome)
        requires
            old(self).wf(),
            old(self).ends_exist(),
            old(self).sel()@ matches Some(l) ==> (l <= old(self).start_of(N - 1) + 30 ==> l + n
                <= MAX_DAYS),
            old(self).step_len() > 0 ==> old(self).start_of(0) + 31 * ((old(self).step_len() as u32)
                + N) <= MAX_DAYS,
        ensures
            final(self).wf(),
            final(self).moved_forward(old(self), 0, n as int, r),
    {
        self.next(0, n as u64)
    }

    /// Select the same day `n` months before, `n` cut to 32 bits.
    ///
    /// This may shift the date a bit if it's out of range of the
    /// new month.
    pub fn prev_month(&mut self, n: usize) -> (r: CalOutcome)
        requires
            old(self).wf(),
            old(self).ends_exist(),
            old(self).sel()@ matches Some(l) ==> (old(self).start_of(0) <= l ==> l - 31 * (n as u32)
                - 3 >= MIN_DAYS),
            old(self).step_len() > 0 ==> old(self).start_of(0) - 31 * (old(self).step_len() as u32)
                - 3 >= MIN_DAYS && old(self).start_of(0) + 31 * N <= MAX_DAYS,
        ensures
            final(self).wf(),
            final(self).moved_back(old(self), (n as u32) as int, 0, r),
    {
        self.prev(#[verifier::truncate] (n as u32), 0)
    }

    /// Select the same day `n` months after, `n` cut to 32 bits.
    ///
    /// This may shift the date a bit if it's out of range of the
    /// new month.
    pub fn next_month(&mut self, n: usize) -> (r: CalOutcome)
        requires
            old(self).wf(),
            old(self).ends_exist(),
            old(self).sel()@ matches Some(l) ==> (l <= old(self).start_of(N - 1) + 30 ==> l + 31 * (
            n as u32) <= MAX_DAYS),
            old(self).step_len() > 0 ==> old(self).start_of(0) + 31 * ((old(self).step_len() as u32)
                + N) <= MAX_DAYS,
        ensures
            final(self).wf(),
            final(self).moved_forward(old(self), (n as u32) as int, 0, r),
    {
        self.next(#[verifier::truncate] (n as u32), 0)
    }

    /// The calendar after moving the selection back by `months` months and
    /// `days` days, with the outcome `r`.
    ///
    /// A target in the calendar is selected; outside it the calendar
    /// scrolls back by the step and the target is selected, with a step of
    /// 0 nothing happens. When anything happened, the month of the new
    /// selection gets the focus.
    pub open spec fn moved_back(&self, before: &Self, months: int, days: int, r: CalOutcome) -> bool {
        let s = before.start_of(0);
        let e = before.last_day();
        let t = back_target(before.sel()@, s, e, months, days);
        self.moved_by(before, t, earlier(s, (before.step_len() as u32) as int), r)
    }

    /// The calendar after moving the selection forward by `months` months
    /// and `days` days, with the outcome `r`; see `moved_back`.
    pub open spec fn moved_forward(&self, before: &Self, months: int, days: int, r: CalOutcome) -> bool {
        let s = before.start_of(0);
        let e = before.last_day();
        let t = forward_target(before.sel()@, s, e, months, days);
        self.moved_by(before, t, later(s, (before.step_len() as u32) as int), r)
    }

    /// The calendar after moving the selection to the day `t`, scrolling
    /// from `scrolled` if `t` is not shown.
    pub open spec fn moved_by(&self, before: &Self, t: int, scrolled: int, r: CalOutcome) -> bool {
        let changed = before.sel()@ != Some(t);
        &&& self.same_frame(before)
        &&& if before.start_of(0) <= t <= before.last_day() {
            &&& self.sel()@ == Some(t)
            &&& r == selected_if(changed)
            &&& changed ==> self.same_starts(before) && self.focused_on(before.primary(), t)
            &&& !changed ==> self.month_seq() == before.month_seq() && self.primary()
                == before.primary()
        } else if before.step_len() > 0 {
            &&& self.sel()@ == Some(t)
            &&& self.starts_from(scrolled)
            &&& self.focused_on(before.primary(), t)
            &&& r == if changed {
                CalOutcome::Selected
            } else {
                CalOutcome::Changed
            }
        } else {
            *self == *before && r == CalOutcome::Continue
        }
    }

    /// Moves the selection back by months and days.
    fn prev(&mut self, months: u32, days: u64) -> (r: CalOutcome)
        requires
            old(self).wf(),
            old(self).ends_exist(),
            old(self).sel()@ matches Some(l) ==> (old(self).start_of(0) <= l ==> l - 31 * months - 3
                - days >= MIN_DAYS),
            old(self).step_len() > 0 ==> old(self).start_of(0) - 31 * (old(self).step_len() as u32)
                - 3 >= MIN_DAYS && old(self).start_of(0) + 31 * N <= MAX_DAYS,
        ensures
            final(self).wf(),
            final(self).moved_back(old(self), months as int, days as int, r),
    {
        let base_start = self.start_date();
        let base_end = self.end_date();

        let new_date = match self.selection.lead_selection() {
            Some(date) => if date.num_days() >= base_start.num_days() && date.num_days()
                <= base_end.num_days() {
                sub_months(date, months).unwrap().checked_sub_days(days).unwrap()
            } else if date.num_days() < base_start.num_days() {
                base_start
            } else {
                base_end
            },
            None => base_end,
        };

        let mut r = CalOutcome::Continue;
        if new_date.num_days() >= base_start.num_days() && new_date.num_days()
            <= base_end.num_days() {
            if self.selection.select(new_date) {
                r = CalOutcome::Selected;
            }
            proof {
                self.lemma_same_starts(old(self), 0);
            }
        } else if self.step > 0 {
            r = self.scroll_back(self.step);
            let ghost scrolled = *self;
            if self.selection.select(new_date) {
                r = CalOutcome::Selected;
            }
            proof {
                self.lemma_same_starts(&scrolled, earlier(old(self).start_of(0), (old(self).step_len() as u32) as int));
            }
        }
        if r.is_consumed() {
            let ghost focused = *self;
            self.focus_lead();
            proof {
                self.lemma_same_starts(&focused, earlier(old(self).start_of(0), (old(self).step_len() as u32) as int));
            }
        }
        r
    }

    /// Moves the selection forward by months and days.
    fn next(&mut self, months: u32, days: u64) -> (r: CalOutcome)
        requires
            old(self).wf(),
            old(self).ends_exist(),
            old(self).sel()@ matches Some(l) ==> (l <= old(self).start_of(N - 1) + 30 ==> l + 31
                * months + days <= MAX_DAYS),
            old(self).step_len() > 0 ==> old(self).start_of(0) + 31 * ((old(self).step_len() as u32)
                + N) <= MAX_DAYS,
        ensures
            final(self).wf(),
            final(self).moved_forward(old(self), months as int, days as int, r),
    {
        let base_start = self.start_date();
        let base_end = self.end_date();

        let new_date = match self.selection.lead_selection() {
            Some(date) => if date.num_days() >= base_start.num_days() && date.num_days()
                <= base_end.num_days() {
                add_months(date, months).unwrap().checked_add_days(days).unwrap()
            } else if date.num_days() < base_start.num_days() {
                base_start
            } else {
                base_end
            },
            None => base_start,
        };

        let mut r = CalOutcome::Continue;
        if new_date.num_days() >= base_start.num_days() && new_date.num_days()
            <= base_end.num_days() {
            if self.selection.select(new_date) {
                r = CalOutcome::Selected;
            }
            proof {
                self.lemma_same_starts(old(self), 0);
            }
        } else if self.step > 0 {
            r = self.scroll_forward(self.step);
            let ghost scrolled = *self;
            if self.selection.select(new_date) {
                r = CalOutcome::Selected;
            }
            proof {
                self.lemma_same_starts(&scrolled, later(old(self).start_of(0), (old(self).step_len() as u32) as int));
            }
        }
        if r.is_consumed() {
            let ghost focused = *self;
            self.focus_lead();
            proof {
                self.lemma_same_starts(&focused, later(old(self).start_of(0), (old(self).step_len() as u32) as int));
            }
        }
        r
    }
}

/// What a navigation step of a range selection selects.
#[derive(Debug, Clone, Copy, PartialEq, Eq, Structural)]
pub enum SelectUnit {
    /// A single day.
    Day,
    /// The Monday-to-Sunday week of the day.
    Week,
    /// The month of the day.
    Month,
}

/// The range selection after selecting the unit at day `d`.
pub open spec fn unit_selection(unit: SelectUnit, sel: Option<(int, int)>, d: int, extend: bool) -> Option<(int, int)> {
    match unit {
        SelectUnit::Day => day_selection(sel, d, extend),
        SelectUnit::Week => week_selection(sel, d, extend),
        SelectUnit::Month => month_selection(sel, d, extend),
    }
}

/// The unit at day `d` can be selected.
pub open spec fn unit_ok(unit: SelectUnit, sel: Option<(int, int)>, d: int, extend: bool) -> bool {
    match unit {
        SelectUnit::Day => true,
        SelectUnit::Week => week_exists(d) && (extend ==> week_ops_ok(sel)),
        SelectUnit::Month => month_end_exists(d) && (extend ==> month_ops_ok(sel)),
    }
}

/// Lead of a selection, 0 without one.
pub open spec fn lead_of(sel: Option<(int, int)>) -> int {
    match sel {
        Some((_, l)) => l,
        None => 0,
    }
}

/// The day a range navigation back by `n` days reaches: from a lead in
/// the calendar `s..=e`, or with scrolling (`step != 0`), back from the
/// lead; else from outside to the nearer end; without a lead the end.
pub open spec fn day_back(lead: Option<int>, s: int, e: int, n: int, step: int) -> int {
    match lead {
        Some(l) => if s <= l <= e || step != 0 {
            l - n
        } else if l < s {
            s
        } else {
            e
        },
        None => e,
    }
}

/// The day a range navigation forward by `n` days reaches; see `day_back`.
/// Without a lead the start.
pub open spec fn day_forward(lead: Option<int>, s: int, e: int, n: int, step: int) -> int {
    match lead {
        Some(l) => if s <= l <= e || step != 0 {
            l + n
        } else if l < s {
            s
        } else {
            e
        },
        None => s,
    }
}

/// The day a range navigation back by `n` months reaches; see `day_back`.
pub open spec fn month_back(lead: Option<int>, s: int, e: int, n: int, step: int) -> int {
    match lead {
        Some(l) => if s <= l <= e || step != 0 {
            earlier(l, n)
        } else if l < s {
            s
        } else {
            e
        },
        None => e,
    }
}

/// The day a range navigation forward by `n` months reaches; see
/// `day_back`. Without a lead the start.
pub open spec fn month_forward(lead: Option<int>, s: int, e: int, n: int, step: int) -> int {
    match lead {
        Some(l) => if s <= l <= e || step != 0 {
            later(l, n)
        } else if l < s {
            s
        } else {
            e
        },
        None => s,
    }
}

/// The day a range navigation forward by `n` weeks reaches: from a lead
/// whose week ends in the calendar `s..=e`, or with scrolling, forward
/// from the lead; else to the nearer end; without a lead the start.
pub open spec fn week_forward(lead: Option<int>, s: int, e: int, n: int, step: int) -> int {
    match lead {
        Some(l) => if s <= week_end(l) <= e || step != 0 {
            l + 7 * n
        } else if week_end(l) < s {
            s
        } else {
            e
        },
        None => s,
    }
}

impl<const N: usize> CalendarState<N, RangeSelection> {
    /// The calendar after a navigation step that selects `ns`: if
    /// `shown` the selection changes in place, else the calendar scrolls
    /// from `scrolled` by its step first; with a step of 0 nothing happens.
    /// When anything happened, the month of the new lead gets the focus.
    pub open spec fn range_moved(
        &self,
        before: &Self,
        shown: bool,
        ns: Option<(int, int)>,
        scrolled: int,
        r: CalOutcome,
    ) -> bool {
        let changed = ns != before.sel()@;
        &&& self.same_frame(before)
        &&& if shown {
            &&& self.sel()@ == ns
            &&& r == selected_if(changed)
            &&& changed ==> self.same_starts(before) && self.focused_on(
                before.primary(),
                lead_of(ns),
            )
            &&& !changed ==> self.month_seq() == before.month_seq() && self.primary()
                == before.primary()
        } else if before.step_len() > 0 {
            &&& self.sel()@ == ns
            &&& self.starts_from(scrolled)
            &&& self.focused_on(before.primary(), lead_of(ns))
            &&& r == if changed {
                CalOutcome::Selected
            } else {
                CalOutcome::Changed
            }
        } else {
            *self == *before && r == CalOutcome::Continue
        }
    }

    /// Clear the selection.
    pub fn clear_selection(&mut self)
        ensures
            final(self).sel()@ is None,
            final(self).month_seq() == old(self).month_seq(),
            final(self).primary() == old(self).primary(),
            final(self).same_frame(old(self)),
    {
        self.selection.clear();
    }

    /// Select the full month of the date. Any date of the month will do.
    /// Can extend the selection to encompass the month.
    /// Any existing selection is buffed up to fill one month.
    pub fn select_month(&mut self, date: Date, extend: bool) -> (r: bool)
        requires
            month_end_exists(date@),
            extend ==> month_ops_ok(old(self).sel()@),
        ensures
            final(self).sel()@ == month_selection(old(self).sel()@, date@, extend),
            r == (final(self).sel()@ != old(self).sel()@),
            final(self).month_seq() == old(self).month_seq(),
            final(self).primary() == old(self).primary(),
            final(self).same_frame(old(self)),
    {
        self.selection.select_month(date, extend)
    }

    /// Select the week of the given date. Any date of the week will do.
    /// Can extend the selection to encompass the week.
    /// Any existing selection is buffed up to fill one week.
    pub fn select_week(&mut self, date: Date, extend: bool) -> (r: bool)
        requires
            week_exists(date@),
            extend ==> week_ops_ok(old(self).sel()@),
        ensures
            final(self).sel()@ == week_selection(old(self).sel()@, date@, extend),
            r == (final(self).sel()@ != old(self).sel()@),
            final(self).month_seq() == old(self).month_seq(),
            final(self).primary() == old(self).primary(),
            final(self).same_frame(old(self)),
    {
        self.selection.select_week(date, extend)
    }

    /// Select the given date.
    /// Can extend the selection to the given date.
    pub fn select_day(&mut self, date: Date, extend: bool) -> (r: bool)
        ensures
            final(self).sel()@ == day_selection(old(self).sel()@, date@, extend),
            r == (final(self).sel()@ != old(self).sel()@),
            final(self).month_seq() == old(self).month_seq(),
            final(self).primary() == old(self).primary(),
            final(self).same_frame(old(self)),
    {
        self.selection.select_day(date, extend)
    }

    /// Set the selection as (anchor, lead) pair.
    pub fn select(&mut self, selection: (Date, Date)) -> (r: bool)
        ensures
            final(self).sel()@ == Some((selection.0@, selection.1@)),
            r == (final(self).sel()@ != old(self).sel()@),
            final(self).month_seq() == old(self).month_seq(),
            final(self).primary() == old(self).primary(),
            final(self).same_frame(old(self)),
    {
        self.selection.select(selection)
    }

    /// Selection as (anchor, lead) pair.
    pub fn selected(&self) -> (r: Option<(Date, Date)>)
        ensures
            pair_days(r) == self.sel()@,
    {
        self.selection.selected()
    }

    /// Selection as (first, last) date, both included.
    pub fn selected_range(&self) -> (r: Option<(Date, Date)>)
        ensures
            pair_days(r) == span_range(self.sel()@),
    {
        self.selection.selected_range()
    }

    /// Move the calendar to the given day.
    ///
    /// Uses the [TodayPolicy] to build the new calendar, selects the date
    /// alone and focuses its month.
    pub fn move_to(&mut self, date: Date) -> (r: CalOutcome)
        requires
            old(self).wf(),
            old(self).can_move_to(date@),
        ensures
            final(self).range_moved_to(old(self), date@, r),
    {
        let mut r = CalOutcome::Changed;
        if self.selection.select_day(date, false) {
            r = CalOutcome::Selected;
        }
        self.move_months(date);
        self.focus_lead();
        r
    }

    /// Selects the unit at the date.
    fn select_unit(&mut self, unit: SelectUnit, date: Date, extend: bool) -> (r: bool)
        requires
            unit_ok(unit, old(self).sel()@, date@, extend),
        ensures
            final(self).sel()@ == unit_selection(unit, old(self).sel()@, date@, extend),
            r == (final(self).sel()@ != old(self).sel()@),
            final(self).month_seq() == old(self).month_seq(),
            final(self).primary() == old(self).primary(),
            final(self).same_frame(old(self)),
    {
        match unit {
            SelectUnit::Day => self.selection.select_day(date, extend),
            SelectUnit::Week => self.selection.select_week(date, extend),
            SelectUnit::Month => self.selection.select_month(date, extend),
        }
    }

    /// Selects the unit at the date where it is shown; else scrolls back
    /// or forward by the step first, if there is one. Focuses the lead's
    /// month when anything happened.
    fn select_or_scroll(
        &mut self,
        unit: SelectUnit,
        date: Date,
        shown: bool,
        back: bool,
        extend: bool,
    ) -> (r: CalOutcome)
        requires
            old(self).wf(),
            old(self).ends_exist(),
            unit_ok(unit, old(self).sel()@, date@, extend),
            back ==> old(self).can_scroll_back(),
            !back ==> old(self).can_scroll_forward(),
        ensures
            final(self).wf(),
            final(self).range_moved(
                old(self),
                shown,
                unit_selection(unit, old(self).sel()@, date@, extend),
                if back {
                    earlier(old(self).start_of(0), (old(self).step_len() as u32) as int)
                } else {
                    later(old(self).start_of(0), (old(self).step_len() as u32) as int)
                },
                r,
            ),
    {
        let ghost scrolled_from = if back {
            earlier(old(self).start_of(0), (old(self).step_len() as u32) as int)
        } else {
            later(old(self).start_of(0), (old(self).step_len() as u32) as int)
        };
        let mut r = CalOutcome::Continue;
        if shown {
            if self.select_unit(unit, date, extend) {
                r = CalOutcome::Selected;
            }
            proof {
                self.lemma_same_starts(old(self), 0);
            }
        } else if self.step > 0 {
            if back {
                r = self.scroll_back(self.step);
            } else {
                r = self.scroll_forward(self.step);
            }
            let ghost scrolled = *self;
            if self.select_unit(unit, date, extend) {
                r = CalOutcome::Selected;
            }
            proof {
                self.lemma_same_starts(&scrolled, scrolled_from);
            }
        }
        if r.is_consumed() {
            let ghost focused = *self;
            self.focus_lead();
            proof {
                self.lemma_same_starts(&focused, scrolled_from);
            }
        }
        r
    }
}

impl<const N: usize> CalendarState<N, RangeSelection> {
    /// Move the lead back by months and days and select it alone.
    /// Clears the current selection and scrolls if necessary.
    pub fn move_to_prev(&mut self, months: u32, days: u64) -> (r: CalOutcome)
        requires
            old(self).wf(),
            old(self).ends_exist(),
            range_lead(old(self).sel()@) matches Some(l) ==> (old(self).start_of(0) <= l ==> l - 31
                * months - 3 - days >= MIN_DAYS),
            old(self).can_scroll_back(),
        ensures
            final(self).wf(),
            ({
                let s = old(self).start_of(0);
                let e = old(self).last_day();
                let t = back_target(range_lead(old(self).sel()@), s, e, months as int, days as int);
                final(self).range_moved(
                    old(self),
                    s <= t <= e,
                    day_selection(old(self).sel()@, t, false),
                    earlier(s, (old(self).step_len() as u32) as int),
                    r,
                )
            }),
    {
        let base_start = self.start_date();
        let base_end = self.end_date();

        let new_date = match self.selection.lead_selection() {
            Some(date) => if date.num_days() >= base_start.num_days() && date.num_days()
                <= base_end.num_days() {
                sub_months(date, months).unwrap().checked_sub_days(days).unwrap()
            } else if date.num_days() < base_start.num_days() {
                base_start
            } else {
                base_end
            },
            None => base_end,
        };
        let shown = new_date.num_days() >= base_start.num_days() && new_date.num_days()
            <= base_end.num_days();
        self.select_or_scroll(SelectUnit::Day, new_date, shown, true, false)
    }

    /// Move the lead forward by months and days and select it alone.
    /// Clears the current selection and scrolls if necessary.
    pub fn move_to_next(&mut self, months: u32, days: u64) -> (r: CalOutcome)
        requires
            old(self).wf(),
            old(self).ends_exist(),
            range_lead(old(self).sel()@) matches Some(l) ==> (l <= old(self).start_of(N - 1) + 30
                ==> l + 31 * months + days <= MAX_DAYS),
            old(self).can_scroll_forward(),
        ensures
            final(self).wf(),
            ({
                let s = old(self).start_of(0);
                let e = old(self).last_day();
                let t = forward_target(
                    range_lead(old(self).sel()@),
                    s,
                    e,
                    months as int,
                    days as int,
                );
                final(self).range_moved(
                    old(self),
                    s <= t <= e,
                    day_selection(old(self).sel()@, t, false),
                    later(s, (old(self).step_len() as u32) as int),
                    r,
                )
            }),
    {
        let base_start = self.start_date();
        let base_end = self.end_date();

        let new_date = match self.selection.lead_selection() {
            Some(date) => if date.num_days() >= base_start.num_days() && date.num_days()
                <= base_end.num_days() {
                add_months(date, months).unwrap().checked_add_days(days).unwrap()
            } else if date.num_days() < base_start.num_days() {
                base_start
            } else {
                base_end
            },
            None => base_start,
        };
        let shown = new_date.num_days() >= base_start.num_days() && new_date.num_days()
            <= base_end.num_days();
        self.select_or_scroll(SelectUnit::Day, new_date, shown, false, false)
    }

    /// Select the day `n` days before the lead.
    ///
    /// Can extend the selection to include the new date.
    pub fn prev_day(&mut self, n: usize, extend: bool) -> (r: CalOutcome)
        requires
            old(self).wf(),
            old(self).ends_exist(),
            range_lead(old(self).sel()@) matches Some(l) ==> (old(self).start_of(0) <= l
                || old(self).step_len() != 0 ==> l - n >= MIN_DAYS),
            old(self).can_scroll_back(),
        ensures
            final(self).wf(),
            ({
                let s = old(self).start_of(0);
                let e = old(self).last_day();
                let t = day_back(
                    range_lead(old(self).sel()@),
                    s,
                    e,
                    n as int,
                    old(self).step_len(),
                );
                final(self).range_moved(
                    old(self),
                    s <= t <= e,
                    day_selection(old(self).sel()@, t, extend),
                    earlier(s, (old(self).step_len() as u32) as int),
                    r,
                )
            }),
    {
        let base_start = self.start_date();
        let base_end = self.end_date();

        let new_date = match self.selection.lead_selection() {
            Some(date) => if date.num_days() >= base_start.num_days() && date.num_days()
                <= base_end.num_days() || self.step != 0 {
                date.checked_sub_days(n as u64).unwrap()
            } else if date.num_days() < base_start.num_days() {
                base_start
            } else {
                base_end
            },
            None => base_end,
        };
        let shown = new_date.num_days() >= base_start.num_days() && new_date.num_days()
            <= base_end.num_days();
        self.select_or_scroll(SelectUnit::Day, new_date, shown, true, extend)
    }

    /// Select the day `n` days after the lead.
    ///
    /// Can extend the selection to include the new date.
    pub fn next_day(&mut self, n: usize, extend: bool) -> (r: CalOutcome)
        requires
            old(self).wf(),
            old(self).ends_exist(),
            range_lead(old(self).sel()@) matches Some(l) ==> (l <= old(self).start_of(N - 1) + 30
                || old(self).step_len() != 0 ==> l + n <= MAX_DAYS),
            old(self).can_scroll_forward(),
        ensures
            final(self).wf(),
            ({
                let s = old(self).start_of(0);
                let e = old(self).last_day();
                let t = day_forward(
                    range_lead(old(self).sel()@),
                    s,
                    e,
                    n as int,
                    old(self).step_len(),
                );
                final(self).range_moved(
                    old(self),
                    s <= t <= e,
                    day_selection(old(self).sel()@, t, extend),
                    later(s, (old(self).step_len() as u32) as int),
                    r,
                )
            }),
    {
        let base_start = self.start_date();
        let base_end = self.end_date();

        let new_date = match self.selection.lead_selection() {
            Some(date) => if date.num_days() >= base_start.num_days() && date.num_days()
                <= base_end.num_days() || self.step > 0 {
                date.checked_add_days(n as u64).unwrap()
            } else if date.num_days() < base_start.num_days() {
                base_start
            } else {
                base_end
            },
            None => base_start,
        };
        let shown = new_date.num_days() >= base_start.num_days() && new_date.num_days()
            <= base_end.num_days();
        self.select_or_scroll(SelectUnit::Day, new_date, shown, false, extend)
    }

    /// Select the week `n` weeks before the lead.
    ///
    /// When extending a selection, the current selection buffs up to fill
    /// whole weeks.
    pub fn prev_week(&mut self, n: usize, extend: bool) -> (r: CalOutcome)
        requires
            old(self).wf(),
            old(self).ends_exist(),
            MIN_DAYS + 6 <= old(self).start_of(0),
            MIN_DAYS + 6 <= old(self).start_of(N - 1) <= MAX_DAYS - 36,
            range_lead(old(self).sel()@) matches Some(l) ==> (old(self).start_of(0) <= l
                || old(self).step_len() != 0 ==> week_exists(l - 7 * n)),
            extend ==> week_ops_ok(old(self).sel()@),
            old(self).can_scroll_back(),
        ensures
            final(self).wf(),
            ({
                let s = old(self).start_of(0);
                let e = old(self).last_day();
                let lead = range_lead(old(self).sel()@);
                let t = day_back(lead, s, e, 7 * n, old(self).step_len());
                final(self).range_moved(
                    old(self),
                    lead is None || s <= week_end(t) <= e,
                    week_selection(old(self).sel()@, t, extend),
                    earlier(s, (old(self).step_len() as u32) as int),
                    r,
                )
            }),
    {
        let base_start = self.start_date();
        let base_end = self.end_date();

        let (new_date, shown) = match self.selection.lead_selection() {
            Some(date) => {
                let new_date = if date.num_days() >= base_start.num_days() && date.num_days()
                    <= base_end.num_days() || self.step != 0 {
                    date.checked_sub_days(7 * n as u64).unwrap()
                } else if date.num_days() < base_start.num_days() {
                    base_start
                } else {
                    base_end
                };
                let new_date_end = week_last_day(new_date);
                (
                    new_date,
                    new_date_end.num_days() >= base_start.num_days() && new_date_end.num_days()
                        <= base_end.num_days(),
                )
            },
            None => (base_end, true),
        };
        self.select_or_scroll(SelectUnit::Week, new_date, shown, true, extend)
    }

    /// Select the week `n` weeks after the lead.
    ///
    /// When extending a selection, the current selection buffs up to fill
    /// whole weeks.
    pub fn next_week(&mut self, n: usize, extend: bool) -> (r: CalOutcome)
        requires
            old(self).wf(),
            old(self).ends_exist(),
            MIN_DAYS + 6 <= old(self).start_of(0),
            MIN_DAYS + 6 <= old(self).start_of(N - 1) <= MAX_DAYS - 36,
            range_lead(old(self).sel()@) matches Some(l) ==> week_exists(l) && (l <= old(self).start_of(N - 1) + 30 || old(self).step_len() != 0 ==> l + 7 * n <= MAX_DAYS - 6),
            extend ==> week_ops_ok(old(self).sel()@),
            old(self).can_scroll_forward(),
        ensures
            final(self).wf(),
            ({
                let s = old(self).start_of(0);
                let e = old(self).last_day();
                let t = week_forward(
                    range_lead(old(self).sel()@),
                    s,
                    e,
                    n as int,
                    old(self).step_len(),
                );
                final(self).range_moved(
                    old(self),
                    s <= t <= e,
                    week_selection(old(self).sel()@, t, extend),
                    later(s, (old(self).step_len() as u32) as int),
                    r,
                )
            }),
    {
        let base_start = self.start_date();
        let base_end = self.end_date();

        let new_date = match self.selection.lead_selection() {
            Some(date) => {
                let date_end = week_last_day(date);
                if date_end.num_days() >= base_start.num_days() && date_end.num_days()
                    <= base_end.num_days() || self.step > 0 {
                    date.checked_add_days(7 * n as u64).unwrap()
                } else if date_end.num_days() < base_start.num_days() {
                    base_start
                } else {
                    base_end
                }
            },
            None => base_start,
        };
        let shown = new_date.num_days() >= base_start.num_days() && new_date.num_days()
            <= base_end.num_days();
        self.select_or_scroll(SelectUnit::Week, new_date, shown, false, extend)
    }

    /// Select the month `n` months before the lead, `n` cut to 32 bits.
    ///
    /// When extending a selection, the current selection buffs up to fill
    /// whole months.
    pub fn prev_month(&mut self, n: usize, extend: bool) -> (r: CalOutcome)
        requires
            old(self).wf(),
            old(self).ends_exist(),
            old(self).start_of(N - 1) + 60 < MAX_DAYS,
            range_lead(old(self).sel()@) matches Some(l) ==> (old(self).start_of(0) <= l
                || old(self).step_len() != 0 ==> l - 31 * (n as u32) - 3 >= MIN_DAYS
                && month_end_exists(l)),
            extend ==> month_ops_ok(old(self).sel()@),
            old(self).can_scroll_back(),
        ensures
            final(self).wf(),
            ({
                let s = old(self).start_of(0);
                let e = old(self).last_day();
                let t = month_back(
                    range_lead(old(self).sel()@),
                    s,
                    e,
                    (n as u32) as int,
                    old(self).step_len(),
                );
                final(self).range_moved(
                    old(self),
                    s <= t <= e,
                    month_selection(old(self).sel()@, t, extend),
                    earlier(s, (old(self).step_len() as u32) as int),
                    r,
                )
            }),
    {
        let base_start = self.start_date();
        let base_end = self.end_date();
        let k: u32 = #[verifier::truncate] (n as u32);

        let new_date = match self.selection.lead_selection() {
            Some(date) => if date.num_days() >= base_start.num_days() && date.num_days()
                <= base_end.num_days() || self.step != 0 {
                sub_months(date, k).unwrap()
            } else if date.num_days() < base_start.num_days() {
                base_start
            } else {
                base_end
            },
            None => base_end,
        };
        let shown = new_date.num_days() >= base_start.num_days() && new_date.num_days()
            <= base_end.num_days();
        self.select_or_scroll(SelectUnit::Month, new_date, shown, true, extend)
    }

    /// Select the month `n` months after the lead, `n` cut to 32 bits.
    ///
    /// When extending a selection, the current selection buffs up to fill
    /// whole months.
    pub fn next_month(&mut self, n: usize, extend: bool) -> (r: CalOutcome)
        requires
            old(self).wf(),
            old(self).ends_exist(),
            old(self).start_of(N - 1) + 60 < MAX_DAYS,
            range_lead(old(self).sel()@) matches Some(l) ==> (l <= old(self).start_of(N - 1) + 30
                || old(self).step_len() != 0 ==> l + 31 * (n as u32) < MAX_DAYS - 30),
            extend ==> month_ops_ok(old(self).sel()@),
            old(self).can_scroll_forward(),
        ensures
            final(self).wf(),
            ({
                let s = old(self).start_of(0);
                let e = old(self).last_day();
                let t = month_forward(
                    range_lead(old(self).sel()@),
                    s,
                    e,
                    (n as u32) as int,
                    old(self).step_len(),
                );
                final(self).range_moved(
                    old(self),
                    s <= t <= e,
                    month_selection(old(self).sel()@, t, extend),
                    later(s, (old(self).step_len() as u32) as int),
                    r,
                )
            }),
    {
        let base_start = self.start_date();
        let base_end = self.end_date();
        let k: u32 = #[verifier::truncate] (n as u32);

        let new_date = match self.selection.lead_selection() {
            Some(date) => if date.num_days() >= base_start.num_days() && date.num_days()
                <= base_end.num_days() || self.step > 0 {
                add_months(date, k).unwrap()
            } else if date.num_days() < base_start.num_days() {
                base_start
            } else {
                base_end
            },
            None => base_start,
        };
        let shown = new_date.num_days() >= base_start.num_days() && new_date.num_days()
            <= base_end.num_days();
        self.select_or_scroll(SelectUnit::Month, new_date, shown, false, extend)
    }
}

/// Scrolling back by as many months as the calendar was scrolled forward
/// shows the same months again.
pub proof fn lemma_scroll_back_undoes_forward<const N: usize, S>(
    before: CalendarState<N, S>,
    forward: CalendarState<N, S>,
    back: CalendarState<N, S>,
    k: int,
)
    requires
        before.shows_months_from(month_index(before.start_of(0))),
        forward.shows_months_from(month_index(before.start_of(0)) + k),
        back.shows_months_from(month_index(forward.start_of(0)) - k),
        back.month_seq().len() == before.month_seq().len(),
        forward.month_seq().len() > 0,
    ensures
        forall|i: int|
            0 <= i < before.month_seq().len() ==> #[trigger] month_index(back.start_of(i))
                == month_index(before.start_of(i)),
{
    assert(month_index(forward.start_of(0)) == month_index(before.start_of(0)) + k);
    assert forall|i: int| 0 <= i < before.month_seq().len() implies #[trigger] month_index(
        back.start_of(i),
    ) == month_index(before.start_of(i)) by {
        assert(month_index(back.start_of(i)) == month_index(forward.start_of(0)) - k + i);
        assert(month_index(before.start_of(i)) == month_index(before.start_of(0)) + i);
    }
}


/// A navigation step of a calendar with a range selection.
#[derive(Debug, Clone, Copy, PartialEq, Eq, Structural)]
pub enum CalendarStep {
    /// Move the lead back by months and days and select it alone.
    ToPrev(u32, u64),
    /// Move the lead forward by months and days and select it alone.
    ToNext(u32, u64),
    /// Back by this many days.
    PrevDay(usize),
    /// Forward by this many days.
    NextDay(usize),
    /// Back by this many weeks.
    PrevWeek(usize),
    /// Forward by this many weeks.
    NextWeek(usize),
    /// Back by this many months.
    PrevMonth(usize),
    /// Forward by this many months.
    NextMonth(usize),
}

/// The step a key takes in a focused calendar with a range selection, and
/// whether it extends the selection: Page up and down move the lead by a
/// month, with Shift they select months; the arrows move by a day, up and
/// down by a week, with Alt up and down select weeks; Shift extends.
pub open spec fn range_calendar_key(k: KeyPress) -> Option<(CalendarStep, bool)> {
    let plain = !k.control && !k.alt;
    let alt = !k.control && k.alt;
    if plain && !k.shift && k.code == KeyCode::PageUp {
        Some((CalendarStep::ToPrev(1, 0), false))
    } else if plain && !k.shift && k.code == KeyCode::PageDown {
        Some((CalendarStep::ToNext(1, 0), false))
    } else if plain && k.shift && k.code == KeyCode::PageUp {
        Some((CalendarStep::PrevMonth(1), true))
    } else if plain && k.shift && k.code == KeyCode::PageDown {
        Some((CalendarStep::NextMonth(1), true))
    } else if plain && k.code == KeyCode::Up {
        Some((CalendarStep::PrevDay(7), k.shift))
    } else if plain && k.code == KeyCode::Down {
        Some((CalendarStep::NextDay(7), k.shift))
    } else if plain && k.code == KeyCode::Left {
        Some((CalendarStep::PrevDay(1), k.shift))
    } else if plain && k.code == KeyCode::Right {
        Some((CalendarStep::NextDay(1), k.shift))
    } else if alt && k.code == KeyCode::Up {
        Some((CalendarStep::PrevWeek(1), k.shift))
    } else if alt && k.code == KeyCode::Down {
        Some((CalendarStep::NextWeek(1), k.shift))
    } else {
        None
    }
}

/// The step a key takes in a focused calendar with a range selection.
pub fn range_calendar_key_of(k: KeyPress) -> (r: Option<(CalendarStep, bool)>)
    ensures
        r == range_calendar_key(k),
{
    if k.control {
        None
    } else if !k.alt {
        if k.code == KeyCode::PageUp {
            if k.shift {
                Some((CalendarStep::PrevMonth(1), true))
            } else {
                Some((CalendarStep::ToPrev(1, 0), false))
            }
        } else if k.code == KeyCode::PageDown {
            if k.shift {
                Some((CalendarStep::NextMonth(1), true))
            } else {
                Some((CalendarStep::ToNext(1, 0), false))
            }
        } else if k.code == KeyCode::Up {
            Some((CalendarStep::PrevDay(7), k.shift))
        } else if k.code == KeyCode::Down {
            Some((CalendarStep::NextDay(7), k.shift))
        } else if k.code == KeyCode::Left {
            Some((CalendarStep::PrevDay(1), k.shift))
        } else if k.code == KeyCode::Right {
            Some((CalendarStep::NextDay(1), k.shift))
        } else {
            None
        }
    } else if k.code == KeyCode::Up {
        Some((CalendarStep::PrevWeek(1), k.shift))
    } else if k.code == KeyCode::Down {
        Some((CalendarStep::NextWeek(1), k.shift))
    } else {
        None
    }
}

/// Control-A: select the primary month.
pub open spec fn is_select_all_key(k: KeyPress) -> bool {
    k.is(KeyCode::Char('a'), false, true, false)
}

/// Control-Home: move to today.
pub open spec fn is_today_key(k: KeyPress) -> bool {
    k.is(KeyCode::Home, false, true, false)
}

impl<const N: usize> CalendarState<N, RangeSelection> {
    /// Whether the target of the step is shown, the selection the step
    /// makes, and whether it scrolls back (else forward) when the target
    /// is not shown.
    pub open spec fn range_plan(&self, step: CalendarStep, extend: bool) -> (bool, Option<(int, int)>, bool) {
        let s = self.start_of(0);
        let e = self.last_day();
        let sel = self.sel()@;
        let lead = range_lead(sel);
        let k = self.step_len();
        match step {
            CalendarStep::ToPrev(m, d) => {
                let t = back_target(lead, s, e, m as int, d as int);
                (s <= t <= e, day_selection(sel, t, false), true)
            },
            CalendarStep::ToNext(m, d) => {
                let t = forward_target(lead, s, e, m as int, d as int);
                (s <= t <= e, day_selection(sel, t, false), false)
            },
            CalendarStep::PrevDay(n) => {
                let t = day_back(lead, s, e, n as int, k);
                (s <= t <= e, day_selection(sel, t, extend), true)
            },
            CalendarStep::NextDay(n) => {
                let t = day_forward(lead, s, e, n as int, k);
                (s <= t <= e, day_selection(sel, t, extend), false)
            },
            CalendarStep::PrevWeek(n) => {
                let t = day_back(lead, s, e, 7 * n, k);
                (lead is None || s <= week_end(t) <= e, week_selection(sel, t, extend), true)
            },
            CalendarStep::NextWeek(n) => {
                let t = week_forward(lead, s, e, n as int, k);
                (s <= t <= e, week_selection(sel, t, extend), false)
            },
            CalendarStep::PrevMonth(n) => {
                let t = month_back(lead, s, e, (n as u32) as int, k);
                (s <= t <= e, month_selection(sel, t, extend), true)
            },
            CalendarStep::NextMonth(n) => {
                let t = month_forward(lead, s, e, (n as u32) as int, k);
                (s <= t <= e, month_selection(sel, t, extend), false)
            },
        }
    }

    /// The step stays inside chrono's range of dates.
    pub open spec fn range_step_ready(&self, step: CalendarStep, extend: bool) -> bool {
        let sel = self.sel()@;
        let lead = range_lead(sel);
        let k = self.step_len();
        let s = self.start_of(0);
        let sl = self.start_of(N - 1);
        match step {
            CalendarStep::ToPrev(m, d) => {
                &&& lead matches Some(l) ==> (s <= l ==> l - 31 * m - 3 - d >= MIN_DAYS)
                &&& self.can_scroll_back()
            },
            CalendarStep::ToNext(m, d) => {
                &&& lead matches Some(l) ==> (l <= sl + 30 ==> l + 31 * m + d <= MAX_DAYS)
                &&& self.can_scroll_forward()
            },
            CalendarStep::PrevDay(n) => {
                &&& lead matches Some(l) ==> (s <= l || k != 0 ==> l - n >= MIN_DAYS)
                &&& self.can_scroll_back()
            },
            CalendarStep::NextDay(n) => {
                &&& lead matches Some(l) ==> (l <= sl + 30 || k != 0 ==> l + n <= MAX_DAYS)
                &&& self.can_scroll_forward()
            },
            CalendarStep::PrevWeek(n) => {
                &&& MIN_DAYS + 6 <= s
                &&& MIN_DAYS + 6 <= sl <= MAX_DAYS - 36
                &&& lead matches Some(l) ==> (s <= l || k != 0 ==> week_exists(l - 7 * n))
                &&& extend ==> week_ops_ok(sel)
                &&& self.can_scroll_back()
            },
            CalendarStep::NextWeek(n) => {
                &&& MIN_DAYS + 6 <= s
                &&& MIN_DAYS + 6 <= sl <= MAX_DAYS - 36
                &&& lead matches Some(l) ==> week_exists(l) && (l <= sl + 30 || k != 0 ==> l + 7
                    * n <= MAX_DAYS - 6)
                &&& extend ==> week_ops_ok(sel)
                &&& self.can_scroll_forward()
            },
            CalendarStep::PrevMonth(n) => {
                &&& sl + 60 < MAX_DAYS
                &&& lead matches Some(l) ==> (s <= l || k != 0 ==> l - 31 * (n as u32) - 3
                    >= MIN_DAYS && month_end_exists(l))
                &&& extend ==> month_ops_ok(sel)
                &&& self.can_scroll_back()
            },
            CalendarStep::NextMonth(n) => {
                &&& sl + 60 < MAX_DAYS
                &&& lead matches Some(l) ==> (l <= sl + 30 || k != 0 ==> l + 31 * (n as u32)
                    < MAX_DAYS - 30)
                &&& extend ==> month_ops_ok(sel)
                &&& self.can_scroll_forward()
            },
        }
    }

    /// The calendar after taking the step, as planned by `range_plan`.
    pub open spec fn range_stepped(&self, before: &Self, step: CalendarStep, extend: bool, r: CalOutcome) -> bool {
        let (shown, ns, back) = before.range_plan(step, extend);
        let s = before.start_of(0);
        let k = (before.step_len() as u32) as int;
        &&& self.wf()
        &&& self.range_moved(before, shown, ns, if back { earlier(s, k) } else { later(s, k) }, r)
    }

    /// Takes the navigation step; `extend` keeps the anchor.
    pub fn navigate(&mut self, step: CalendarStep, extend: bool) -> (r: CalOutcome)
        requires
            old(self).wf(),
            old(self).ends_exist(),
            old(self).range_step_ready(step, extend),
        ensures
            final(self).range_stepped(old(self), step, extend, r),
    {
        match step {
            CalendarStep::ToPrev(m, d) => self.move_to_prev(m, d),
            CalendarStep::ToNext(m, d) => self.move_to_next(m, d),
            CalendarStep::PrevDay(n) => self.prev_day(n, extend),
            CalendarStep::NextDay(n) => self.next_day(n, extend),
            CalendarStep::PrevWeek(n) => self.prev_week(n, extend),
            CalendarStep::NextWeek(n) => self.next_week(n, extend),
            CalendarStep::PrevMonth(n) => self.prev_month(n, extend),
            CalendarStep::NextMonth(n) => self.next_month(n, extend),
        }
    }

    /// The calendar after moving to the day `d`, see `move_to`.
    pub open spec fn range_moved_to(&self, before: &Self, d: int, r: CalOutcome) -> bool {
        let (p, start) = Self::move_plan(before.policy(), d);
        &&& self.wf()
        &&& self.starts_from(start)
        &&& self.ends_exist()
        &&& self.focused_on(p, d)
        &&& self.same_frame(before)
        &&& self.sel()@ == Some((d, d))
        &&& r == if before.sel()@ != Some((d, d)) {
            CalOutcome::Selected
        } else {
            CalOutcome::Changed
        }
    }

    /// The calendar can handle the key: the steps and moves it takes stay
    /// inside chrono's range of dates, and Control-A finds its primary
    /// month.
    pub open spec fn calendar_key_ready(&self, key: KeyPress, today: Date) -> bool {
        &&& self.wf()
        &&& self.ends_exist()
        &&& self.has_focus() && is_select_all_key(key) ==> self.primary() < N
        &&& self.has_focus() && is_today_key(key) ==> self.can_move_to(today@)
        &&& self.has_focus() ==> (range_calendar_key(key) matches Some((st, ext))
            ==> self.range_step_ready(st, ext))
    }

    /// The calendar after handling a key press of the calendar itself:
    /// with the focus, Control-A selects the primary month, Control-Home
    /// moves to `today`, and the keys of `range_calendar_key` take their
    /// steps; other keys and a calendar without the focus change nothing.
    pub open spec fn calendar_key_handled(&self, before: &Self, key: KeyPress, today: Date, r: CalOutcome) -> bool {
        &&& before.has_focus() && is_select_all_key(key) ==> {
            let ns = month_selection(before.sel()@, before.start_of(before.primary()), false);
            &&& self.sel()@ == ns
            &&& r == selected_if(ns != before.sel()@)
            &&& self.month_seq() == before.month_seq()
            &&& self.primary() == before.primary()
            &&& self.same_frame(before)
        }
        &&& before.has_focus() && is_today_key(key) ==> self.range_moved_to(before, today@, r)
        &&& before.has_focus() && !is_select_all_key(key) && !is_today_key(key) ==> (
        range_calendar_key(key) matches Some((st, ext)) ==> self.range_stepped(before, st, ext, r))
        &&& !before.has_focus() || (!is_select_all_key(key) && !is_today_key(key)
            && range_calendar_key(key) is None) ==> *self == *before && r == CalOutcome::Continue
    }

    /// Handles a key press of the calendar itself, not of its months; see
    /// `calendar_key_handled`.
    pub fn handle_calendar_key(&mut self, key: KeyPress, today: Date) -> (r: CalOutcome)
        requires
            old(self).calendar_key_ready(key, today),
        ensures
            final(self).calendar_key_handled(old(self), key, today, r),
    {
        if !self.focused {
            return CalOutcome::Continue;
        }
        if key.code == KeyCode::Char('a') && !key.shift && key.control && !key.alt {
            let start = self.months[self.primary_idx].start_date();
            if self.select_month(start, false) {
                return CalOutcome::Selected;
            } else {
                return CalOutcome::Continue;
            }
        }
        if key.code == KeyCode::Home && !key.shift && key.control && !key.alt {
            return self.move_to(today);
        }
        match range_calendar_key_of(key) {
            Some((st, ext)) => self.navigate(st, ext),
            None => CalOutcome::Continue,
        }
    }
}


impl<const N: usize> CalendarState<N, RangeSelection> {
    /// The month with index `i`, showing the calendar's selection.
    pub open spec fn month_view(&self, i: int) -> MonthState<RangeSelection> {
        let m = self.month_seq()[i];
        MonthState {
            area: m.area,
            inner: m.inner,
            area_cal: m.area_cal,
            area_days: m.area_days,
            area_weeknum: m.area_weeknum,
            area_weeks: m.area_weeks,
            start_date: m.start_date,
            selection: self.sel(),
            container_focused: m.container_focused,
            focused: m.focused,
        }
    }

    /// The month with index `i` has the focus and the key changes the
    /// selection there.
    pub open spec fn month_takes_key(&self, key: KeyPress, i: int) -> bool {
        &&& self.month_seq()[i].focused
        &&& range_key_step(key) matches Some((st, ext)) && range_after(
            self.start_of(i),
            self.sel()@,
            st,
            ext,
        ) != self.sel()@
    }

    /// The first month from index `i` on that takes the key.
    pub open spec fn first_key_month(&self, key: KeyPress, i: nat) -> Option<int>
        decreases self.month_seq().len() - i,
    {
        if i >= self.month_seq().len() {
            None
        } else if self.month_takes_key(key, i as int) {
            Some(i as int)
        } else {
            self.first_key_month(key, i + 1)
        }
    }

    /// The focused months can handle the key inside chrono's range.
    pub open spec fn months_key_ready(&self, key: KeyPress) -> bool {
        forall|i: int|
            0 <= i < self.month_seq().len() && #[trigger] self.month_seq()[i].focused ==> (
            range_key_step(key) matches Some((st, ext)) ==> range_ready(
                self.start_of(i),
                self.sel()@,
                st,
                ext,
            ))
    }

    /// The calendar after the month with index `i` took the key: the
    /// selection as the month's step makes it, and the month of the new
    /// lead focused.
    pub open spec fn month_key_taken(&self, before: &Self, key: KeyPress, i: int) -> bool {
        &&& range_key_step(key) matches Some((st, ext)) && self.sel()@ == range_after(
            before.start_of(i),
            before.sel()@,
            st,
            ext,
        )
        &&& self.wf()
        &&& self.ends_exist()
        &&& self.same_starts(before)
        &&& self.step_len() == before.step_len()
        &&& self.policy() == before.policy()
        &&& self.has_focus() == before.has_focus()
        &&& self.areas() == before.areas()
        &&& self.focused_on(before.primary(), lead_of(self.sel()@))
    }

    /// Lets the months handle the key, in order, with the calendar's
    /// selection; the first that changes the selection ends this and its
    /// new lead gets the focus.
    pub fn handle_month_keys(&mut self, key: KeyPress) -> (r: CalOutcome)
        requires
            old(self).wf(),
            old(self).ends_exist(),
            old(self).months_key_ready(key),
        ensures
            old(self).first_key_month(key, 0) matches Some(i) ==> final(self).month_key_taken(
                old(self),
                key,
                i,
            ) && r == CalOutcome::Selected,
            old(self).first_key_month(key, 0) is None ==> *final(self) == *old(self) && r
                == CalOutcome::Continue,
    {
        let mut i: usize = 0;
        while i < self.months.len()
            invariant
                *self == *old(self),
                self.wf(),
                self.ends_exist(),
                self.months_key_ready(key),
                i <= N,
                self.first_key_month(key, 0) == self.first_key_month(key, i as nat),
            decreases N - i,
        {
            let m = self.months[i];
            let mut mm = MonthState::<RangeSelection> {
                area: m.area,
                inner: m.inner,
                area_cal: m.area_cal,
                area_days: m.area_days,
                area_weeknum: m.area_weeknum,
                area_weeks: m.area_weeks,
                start_date: m.start_date,
                selection: self.selection,
                container_focused: m.container_focused,
                focused: m.focused,
            };
            assert(mm == self.month_view(i as int));
            let r = mm.handle_key(key);
            if r == CalOutcome::Selected {
                assert(self.month_takes_key(key, i as int));
                assert(self.first_key_month(key, i as nat) == Some(i as int));
                self.selection = mm.selection;
                let ghost picked = *self;
                assert(picked.same_starts(old(self)));
                self.focus_lead();
                return CalOutcome::Selected;
            }
            assert(!self.month_takes_key(key, i as int));
            i += 1;
        }
        CalOutcome::Continue
    }

    /// Handles a key press: first the months, then the calendar itself;
    /// see `handle_month_keys` and `calendar_key_handled`.
    pub fn handle_key(&mut self, key: KeyPress, today: Date) -> (r: CalOutcome)
        requires
            old(self).months_key_ready(key),
            old(self).calendar_key_ready(key, today),
        ensures
            old(self).first_key_month(key, 0) matches Some(i) ==> final(self).month_key_taken(
                old(self),
                key,
                i,
            ) && r == CalOutcome::Selected,
            old(self).first_key_month(key, 0) is None ==> final(self).calendar_key_handled(
                old(self),
                key,
                today,
                r,
            ),
    {
        let r = self.handle_month_keys(key);
        if r != CalOutcome::Continue {
            return r;
        }
        self.handle_calendar_key(key, today)
    }
}


/// The union of the areas of the first `n` months, joined from the first
/// on.
pub open spec fn areas_union(months: Seq<MonthState<()>>, n: nat) -> Rect
    decreases n,
{
    if n <= 1 {
        months[0].area
    } else {
        areas_union(months, (n - 1) as nat).spec_union(months[n - 1].area)
    }
}

impl<const N: usize> CalendarState<N, RangeSelection> {
    /// The mouse event changes the selection in the month with index `i`.
    pub open spec fn month_takes_mouse(&self, e: MouseInput, drag: Option<usize>, i: int) -> bool {
        range_mouse_after(self.month_view(i), e, drag) != self.sel()@
    }

    /// The first month from index `i` on that takes the mouse event.
    pub open spec fn first_mouse_month(&self, e: MouseInput, drag: Option<usize>, i: nat) -> Option<int>
        decreases self.month_seq().len() - i,
    {
        if i >= self.month_seq().len() {
            None
        } else if self.month_takes_mouse(e, drag, i as int) {
            Some(i as int)
        } else {
            self.first_mouse_month(e, drag, i + 1)
        }
    }

    /// The months can handle the mouse event.
    pub open spec fn months_mouse_ready(&self, e: MouseInput, drag: Option<usize>) -> bool {
        forall|i: int|
            0 <= i < self.month_seq().len() ==> range_mouse_ready(
                #[trigger] self.month_view(i),
                e,
                drag,
            )
    }

    /// The calendar after the month with index `i` took the mouse event:
    /// the selection as the month makes it, and the month of the new lead
    /// focused.
    pub open spec fn month_mouse_taken(&self, before: &Self, e: MouseInput, drag: Option<usize>, i: int) -> bool {
        &&& self.sel()@ == range_mouse_after(before.month_view(i), e, drag)
        &&& self.wf()
        &&& self.ends_exist()
        &&& self.same_starts(before)
        &&& self.step_len() == before.step_len()
        &&& self.policy() == before.policy()
        &&& self.has_focus() == before.has_focus()
        &&& self.areas() == before.areas()
        &&& self.focused_on(before.primary(), lead_of(self.sel()@))
    }

    /// Lets the months handle the mouse event, in order, with the
    /// calendar's selection; the first that changes the selection ends
    /// this and its new lead gets the focus. `drag` is as for
    /// `MonthState::handle_mouse`, the same for all months.
    pub fn handle_month_mouse(&mut self, e: MouseInput, drag: Option<usize>) -> (r: CalOutcome)
        requires
            old(self).wf(),
            old(self).ends_exist(),
            old(self).months_mouse_ready(e, drag),
        ensures
            old(self).first_mouse_month(e, drag, 0) matches Some(i) ==> final(self).month_mouse_taken(old(self), e, drag, i) && r == CalOutcome::Selected,
            old(self).first_mouse_month(e, drag, 0) is None ==> *final(self) == *old(self) && r
                == CalOutcome::Continue,
    {
        let mut i: usize = 0;
        while i < self.months.len()
            invariant
                *self == *old(self),
                self.wf(),
                self.ends_exist(),
                self.months_mouse_ready(e, drag),
                i <= N,
                self.first_mouse_month(e, drag, 0) == self.first_mouse_month(e, drag, i as nat),
            decreases N - i,
        {
            let m = self.months[i];
            let mut mm = MonthState::<RangeSelection> {
                area: m.area,
                inner: m.inner,
                area_cal: m.area_cal,
                area_days: m.area_days,
                area_weeknum: m.area_weeknum,
                area_weeks: m.area_weeks,
                start_date: m.start_date,
                selection: self.selection,
                container_focused: m.container_focused,
                focused: m.focused,
            };
            assert(mm == self.month_view(i as int));
            let r = mm.handle_mouse(e, drag);
            if r == CalOutcome::Selected {
                assert(self.first_mouse_month(e, drag, i as nat) == Some(i as int));
                self.selection = mm.selection;
                let ghost picked = *self;
                assert(picked.same_starts(old(self)));
                self.focus_lead();
                return CalOutcome::Selected;
            }
            assert(!self.month_takes_mouse(e, drag, i as int));
            i += 1;
        }
        CalOutcome::Continue
    }
}

impl<const N: usize, S> CalendarState<N, S> {
    /// The wheel turns up (`Some(true)`) or down (`Some(false)`) over the
    /// months, without modifiers.
    pub open spec fn wheel(&self, e: MouseInput) -> Option<bool> {
        let over = areas_union(self.month_seq(), N as nat).spec_contains(e.column, e.row);
        if over && e.is(MouseKind::ScrollUp, false, false, false) {
            Some(true)
        } else if over && e.is(MouseKind::ScrollDown, false, false, false) {
            Some(false)
        } else {
            None
        }
    }

    /// Union of the areas of all months.
    fn all_areas(&self) -> (r: Rect)
        requires
            self.wf(),
        ensures
            r == areas_union(self.month_seq(), N as nat),
    {
        let mut all = self.months[0].area;
        let mut i: usize = 1;
        while i < self.months.len()
            invariant
                self.wf(),
                1 <= i <= N,
                all == areas_union(self.month_seq(), i as nat),
            decreases N - i,
        {
            all = all.union(self.months[i].area);
            i += 1;
        }
        all
    }

    /// Handles the mouse wheel over the months: up scrolls back by the
    /// step, down forward. First the month that gained the focus, if
    /// any (`gained`, the first such index), becomes the primary month.
    pub fn handle_wheel(&mut self, e: MouseInput, gained: Option<usize>) -> (r: CalOutcome)
        requires
            old(self).wf(),
            gained matches Some(i) ==> i < N,
            old(self).wheel(e) == Some(true) && old(self).step_len() != 0 ==> old(self).start_of(0) - 31 * (old(self).step_len() as u32) - 3 >= MIN_DAYS && old(self).start_of(0) + 31 * N <= MAX_DAYS,
            old(self).wheel(e) == Some(false) && old(self).step_len() != 0 ==> old(self).start_of(0) + 31 * ((old(self).step_len() as u32) + N) <= MAX_DAYS,
        ensures
            final(self).wf(),
            final(self).same_month_frames(old(self)),
            final(self).primary() == match gained {
                Some(i) => i as int,
                None => old(self).primary(),
            },
            final(self).step_len() == old(self).step_len(),
            final(self).policy() == old(self).policy(),
            final(self).sel() == old(self).sel(),
            final(self).has_focus() == old(self).has_focus(),
            final(self).areas() == old(self).areas(),
            ({
                let k = (old(self).step_len() as u32) as int;
                let s = old(self).start_of(0);
                match old(self).wheel(e) {
                    Some(back) => if old(self).step_len() != 0 {
                        &&& r == CalOutcome::Changed
                        &&& final(self).ends_exist()
                        &&& back ==> final(self).starts_from(earlier(s, k)) && final(self).shows_months_from(month_index(s) - k)
                        &&& !back ==> final(self).starts_from(later(s, k)) && final(self).shows_months_from(month_index(s) + k)
                    } else {
                        final(self).month_seq() == old(self).month_seq() && r
                            == CalOutcome::Continue
                    },
                    None => final(self).month_seq() == old(self).month_seq() && r
                        == CalOutcome::Continue,
                }
            }),
    {
        if let Some(i) = gained {
            self.set_primary_idx(i);
        }
        let all = self.all_areas();
        let over = all.contains(crate::geometry::Position { x: e.column, y: e.row });
        if over && !e.shift && !e.control && !e.alt {
            if e.kind == MouseKind::ScrollUp {
                return self.scroll_back(self.step);
            } else if e.kind == MouseKind::ScrollDown {
                return self.scroll_forward(self.step);
            }
        }
        CalOutcome::Continue
    }
}


/// The direction a key moves a calendar without selection: Page up and
/// up go back (`true`), Page down and down forward.
pub open spec fn no_selection_key(k: KeyPress) -> Option<bool> {
    if k.is(KeyCode::PageUp, false, false, false) || k.is(KeyCode::Up, false, false, false) {
        Some(true)
    } else if k.is(KeyCode::PageDown, false, false, false) || k.is(
        KeyCode::Down,
        false,
        false,
        false,
    ) {
        Some(false)
    } else {
        None
    }
}

impl<const N: usize> CalendarState<N, NoSelection> {
    /// The calendar can handle the key inside chrono's range of dates.
    pub open spec fn key_ready(&self, key: KeyPress, today: Date) -> bool {
        let p = self.primary();
        &&& self.wf()
        &&& self.has_focus() && is_today_key(key) ==> self.can_move_to(today@)
        &&& self.has_focus() && no_selection_key(key) == Some(true) ==> {
            &&& p < N
            &&& self.start_of(p) - 31 - 3 >= MIN_DAYS
            &&& self.can_scroll_back()
        }
        &&& self.has_focus() && no_selection_key(key) == Some(false) ==> {
            &&& p < N
            &&& month_end_exists(self.start_of(N - 1))
            &&& self.start_of(p) + 31 <= MAX_DAYS
            &&& self.can_scroll_forward()
        }
    }

    /// Handles a key press: with the focus, Control-Home moves to `today`,
    /// Page up and up move a month back, Page down and down a month
    /// forward; other keys and a calendar without the focus change nothing.
    /// The months themselves take no keys.
    pub fn handle_key(&mut self, key: KeyPress, today: Date) -> (r: CalOutcome)
        requires
            old(self).key_ready(key, today),
        ensures
            old(self).has_focus() && is_today_key(key) ==> {
                let (p, start) = Self::move_plan(old(self).policy(), today@);
                final(self).moved_to(old(self), start, p) && r == CalOutcome::Changed
            },
            old(self).has_focus() && !is_today_key(key) && no_selection_key(key) == Some(true)
                ==> final(self).month_moved_back(old(self), 1, r),
            old(self).has_focus() && !is_today_key(key) && no_selection_key(key) == Some(false)
                ==> final(self).month_moved_forward(old(self), 1, r),
            !old(self).has_focus() || (!is_today_key(key) && no_selection_key(key) is None)
                ==> *final(self) == *old(self) && r == CalOutcome::Continue,
    {
        if !self.focused {
            return CalOutcome::Continue;
        }
        if key.shift || key.alt {
            return CalOutcome::Continue;
        }
        if key.control {
            if key.code == KeyCode::Home {
                return self.move_to(today);
            }
            return CalOutcome::Continue;
        }
        if key.code == KeyCode::PageUp || key.code == KeyCode::Up {
            self.prev_month(1)
        } else if key.code == KeyCode::PageDown || key.code == KeyCode::Down {
            self.next_month(1)
        } else {
            CalOutcome::Continue
        }
    }
}


/// The days a key moves the selection of a focused calendar with a
/// single selection, back (`true`) or forward: the arrows move by a day,
/// up and down by a week.
pub open spec fn single_calendar_key(k: KeyPress) -> Option<(bool, usize)> {
    match single_key_step(k) {
        Some(MonthStep::PrevDay(n)) => Some((true, n)),
        Some(MonthStep::NextDay(n)) => Some((false, n)),
        _ => None,
    }
}

impl<const N: usize> CalendarState<N, SingleSelection> {
    /// The month with index `i`, showing the calendar's selection.
    pub open spec fn month_view(&self, i: int) -> MonthState<SingleSelection> {
        let m = self.month_seq()[i];
        MonthState {
            area: m.area,
            inner: m.inner,
            area_cal: m.area_cal,
            area_days: m.area_days,
            area_weeknum: m.area_weeknum,
            area_weeks: m.area_weeks,
            start_date: m.start_date,
            selection: self.sel(),
            container_focused: m.container_focused,
            focused: m.focused,
        }
    }

    /// The month with index `i` has the focus and the key changes the
    /// selection there.
    pub open spec fn month_takes_key(&self, key: KeyPress, i: int) -> bool {
        &&& self.month_seq()[i].focused
        &&& single_key_step(key) matches Some(st) && single_after(
            self.start_of(i),
            self.sel()@,
            st,
        ) != self.sel()@
    }

    /// The first month from index `i` on that takes the key.
    pub open spec fn first_key_month(&self, key: KeyPress, i: nat) -> Option<int>
        decreases self.month_seq().len() - i,
    {
        if i >= self.month_seq().len() {
            None
        } else if self.month_takes_key(key, i as int) {
            Some(i as int)
        } else {
            self.first_key_month(key, i + 1)
        }
    }

    /// The focused months can handle the key inside chrono's range.
    pub open spec fn months_key_ready(&self, key: KeyPress) -> bool {
        forall|i: int|
            0 <= i < self.month_seq().len() && #[trigger] self.month_seq()[i].focused ==> (
            single_key_step(key) matches Some(st) ==> single_ready(self.start_of(i), self.sel()@, st))
    }

    /// The calendar after a month changed the selection to `ns`: the
    /// month of the new selection focused.
    pub open spec fn month_selected(&self, before: &Self, ns: Option<int>) -> bool {
        &&& self.sel()@ == ns
        &&& self.wf()
        &&& self.ends_exist()
        &&& self.same_starts(before)
        &&& self.step_len() == before.step_len()
        &&& self.policy() == before.policy()
        &&& self.has_focus() == before.has_focus()
        &&& self.areas() == before.areas()
        &&& ns matches Some(l) ==> self.focused_on(before.primary(), l)
    }

    /// Lets the months handle the key, in order, with the calendar's
    /// selection; the first that changes the selection ends this and the
    /// month of the new selection gets the focus.
    pub fn handle_month_keys(&mut self, key: KeyPress) -> (r: CalOutcome)
        requires
            old(self).wf(),
            old(self).ends_exist(),
            old(self).months_key_ready(key),
        ensures
            old(self).first_key_month(key, 0) matches Some(i) ==> final(self).month_selected(
                old(self),
                single_after(old(self).start_of(i), old(self).sel()@, single_key_step(key)->0),
            ) && r == CalOutcome::Selected,
            old(self).first_key_month(key, 0) is None ==> *final(self) == *old(self) && r
                == CalOutcome::Continue,
    {
        let mut i: usize = 0;
        while i < self.months.len()
            invariant
                *self == *old(self),
                self.wf(),
                self.ends_exist(),
                self.months_key_ready(key),
                i <= N,
                self.first_key_month(key, 0) == self.first_key_month(key, i as nat),
            decreases N - i,
        {
            let m = self.months[i];
            let mut mm = MonthState::<SingleSelection> {
                area: m.area,
                inner: m.inner,
                area_cal: m.area_cal,
                area_days: m.area_days,
                area_weeknum: m.area_weeknum,
                area_weeks: m.area_weeks,
                start_date: m.start_date,
                selection: self.selection,
                container_focused: m.container_focused,
                focused: m.focused,
            };
            assert(mm == self.month_view(i as int));
            let r = mm.handle_key(key);
            if r.is_consumed() {
                assert(self.month_takes_key(key, i as int));
                assert(self.first_key_month(key, i as nat) == Some(i as int));
                self.selection = mm.selection;
                let ghost picked = *self;
                assert(picked.same_starts(old(self)));
                self.focus_lead();
                return r;
            }
            assert(!self.month_takes_key(key, i as int));
            i += 1;
        }
        CalOutcome::Continue
    }

    /// The calendar can move the selection by the key inside chrono's
    /// range of dates.
    pub open spec fn calendar_key_ready(&self, key: KeyPress) -> bool {
        &&& self.wf()
        &&& self.ends_exist()
        &&& self.has_focus() ==> (single_calendar_key(key) matches Some((back, n)) ==> if back {
            &&& self.sel()@ matches Some(l) ==> (self.start_of(0) <= l ==> l - 3 - n >= MIN_DAYS)
            &&& self.can_scroll_back()
        } else {
            &&& self.sel()@ matches Some(l) ==> (l <= self.start_of(N - 1) + 30 ==> l + n
                <= MAX_DAYS)
            &&& self.can_scroll_forward()
        })
    }

    /// Handles a key press: first the months; if none of them changes the
    /// selection, with the focus the arrows move the selection by a day,
    /// up and down by a week, scrolling the calendar when it leaves it.
    pub fn handle_key(&mut self, key: KeyPress) -> (r: CalOutcome)
        requires
            old(self).months_key_ready(key),
            old(self).calendar_key_ready(key),
        ensures
            old(self).first_key_month(key, 0) matches Some(i) ==> final(self).month_selected(
                old(self),
                single_after(old(self).start_of(i), old(self).sel()@, single_key_step(key)->0),
            ) && r == CalOutcome::Selected,
            old(self).first_key_month(key, 0) is None ==> if old(self).has_focus()
                && single_calendar_key(key) is Some {
                let (back, n) = single_calendar_key(key)->0;
                &&& final(self).wf()
                &&& back ==> final(self).moved_back(old(self), 0, n as int, r)
                &&& !back ==> final(self).moved_forward(old(self), 0, n as int, r)
            } else {
                *final(self) == *old(self) && r == CalOutcome::Continue
            },
    {
        let r = self.handle_month_keys(key);
        if r.is_consumed() {
            return r;
        }
        if !self.focused {
            return CalOutcome::Continue;
        }
        match crate::calendar::month_event::single_key_step_of(key) {
            Some(MonthStep::PrevDay(n)) => self.prev_day(n),
            Some(MonthStep::NextDay(n)) => self.next_day(n),
            _ => CalOutcome::Continue,
        }
    }

    /// Lets the months handle the mouse event, in order, with the
    /// calendar's selection: the first month with a day under a left
    /// press or drag selects it and the month gets the focus.
    pub fn handle_month_mouse(&mut self, e: MouseInput) -> (r: CalOutcome)
        requires
            old(self).wf(),
            old(self).ends_exist(),
        ensures
            ({
                let hit = crate::calendar::month_event::single_mouse_month(
                    old(self).month_seq(),
                    old(self).sel()@,
                    e,
                    0,
                );
                &&& hit matches Some((i, d)) ==> final(self).month_selected(old(self), Some(d))
                    && r == CalOutcome::Selected
                &&& hit is None ==> *final(self) == *old(self) && r == CalOutcome::Continue
            }),
    {
        let mut i: usize = 0;
        while i < self.months.len()
            invariant
                *self == *old(self),
                self.wf(),
                self.ends_exist(),
                i <= N,
                crate::calendar::month_event::single_mouse_month(self.month_seq(), self.sel()@, e, 0)
                    == crate::calendar::month_event::single_mouse_month(
                    self.month_seq(),
                    self.sel()@,
                    e,
                    i as nat,
                ),
            decreases N - i,
        {
            let m = self.months[i];
            let mut mm = MonthState::<SingleSelection> {
                area: m.area,
                inner: m.inner,
                area_cal: m.area_cal,
                area_days: m.area_days,
                area_weeknum: m.area_weeknum,
                area_weeks: m.area_weeks,
                start_date: m.start_date,
                selection: self.selection,
                container_focused: m.container_focused,
                focused: m.focused,
            };
            let r = mm.handle_mouse(e);
            if r.is_consumed() {
                self.selection = mm.selection;
                let ghost picked = *self;
                assert(picked.same_starts(old(self)));
                self.focus_lead();
                return r;
            }
            i += 1;
        }
        CalOutcome::Continue
    }
}

} // verus!
