//!
//! Calendar dates as day numbers.
//!
//! A [Date] is the number of days since the common era, where
//! 0001-01-01 is day 1, in the range that chrono's `NaiveDate` can hold.
//! Day arithmetic and comparisons are done on that number. Everything
//! that needs the civil calendar (day of month, month, year, weekday,
//! iso-week, month boundaries) is asked of chrono.
//!
use chrono::Datelike;
use vstd::prelude::*;

verus! {

/// Day number of the earliest date chrono can represent (-262143-01-01).
pub const MIN_DAYS: i32 = -95746129i32;

/// Day number of the latest date chrono can represent (+262142-12-31).
pub const MAX_DAYS: i32 = 95745399i32;

/// Day number of 1970-01-01, the default date.
pub const EPOCH_DAYS: i32 = 719163i32;

/// A date, stored as days since the common era.
#[derive(Debug, Clone, Copy, PartialEq, Eq, Hash, PartialOrd, Ord, Structural)]
pub struct Date {
    days: i32,
}

impl View for Date {
    type V = int;

    closed spec fn view(&self) -> int {
        self.days as int
    }
}

impl Date {
    #[verifier::type_invariant]
    spec fn in_range(self) -> bool {
        MIN_DAYS <= self.days <= MAX_DAYS
    }

    /// The date with the given day number, if chrono can represent it.
    pub fn from_num_days(days: i32) -> (r: Option<Date>)
        ensures
            r is Some <==> MIN_DAYS <= days <= MAX_DAYS,
            r matches Some(d) ==> d@ == days,
    {
        if MIN_DAYS <= days && days <= MAX_DAYS {
            Some(Date { days })
        } else {
            None
        }
    }

    /// 1970-01-01.
    pub fn epoch() -> (r: Date)
        ensures
            r@ == EPOCH_DAYS,
    {
        Date { days: EPOCH_DAYS }
    }

    /// Days since the common era, 0001-01-01 being day 1.
    pub fn num_days(&self) -> (r: i32)
        ensures
            r == self@,
            MIN_DAYS <= r <= MAX_DAYS,
    {
        proof {
            use_type_invariant(self);
        }
        self.days
    }

    /// The date `n` days later, or None if that leaves the range.
    pub fn checked_add_days(&self, n: u64) -> (r: Option<Date>)
        ensures
            r is Some <==> self@ + n <= MAX_DAYS,
            r matches Some(d) ==> d@ == self@ + n,
    {
        proof {
            use_type_invariant(self);
        }
        let room = (MAX_DAYS as i64 - self.days as i64) as u64;
        if n <= room {
            Some(Date { days: (self.days as i64 + n as i64) as i32 })
        } else {
            None
        }
    }

    /// The date `n` days earlier, or None if that leaves the range.
    pub fn checked_sub_days(&self, n: u64) -> (r: Option<Date>)
        ensures
            r is Some <==> self@ - n >= MIN_DAYS,
            r matches Some(d) ==> d@ == self@ - n,
    {
        proof {
            use_type_invariant(self);
        }
        let room = (self.days as i64 - MIN_DAYS as i64) as u64;
        if n <= room {
            Some(Date { days: (self.days as i64 - n as i64) as i32 })
        } else {
            None
        }
    }

    /// Both dates equal?
    pub fn same_date(a: Option<Date>, b: Option<Date>) -> (r: bool)
        ensures
            r == (opt_days(a) == opt_days(b)),
    {
        match (a, b) {
            (Some(x), Some(y)) => x.num_days() == y.num_days(),
            (None, None) => true,
            _ => false,
        }
    }
}

/// Day number of an optional date.
pub open spec fn opt_days(d: Option<Date>) -> Option<int> {
    match d {
        Some(x) => Some(x@),
        None => None,
    }
}

/// Day of the month (1 to 31) of the date with this day number.
pub uninterp spec fn day_of_month(days: int) -> int;

/// Month (1 to 12) of the date with this day number.
pub uninterp spec fn month_of(days: int) -> int;

/// Year of the date with this day number.
pub uninterp spec fn year_of(days: int) -> int;

/// Weekday of the date with this day number, counted from Monday = 0:
/// day 1, January 1st of year 1, is a Monday, and the weekdays repeat
/// every seven days.
pub open spec fn weekday_index(days: int) -> int {
    (days - 1) % 7
}

/// Iso-week of the date with this day number, as (iso-year, week).
pub uninterp spec fn iso_week_of(days: int) -> (int, int);

/// Day number of the first day of the month of this day number.
pub uninterp spec fn month_first(days: int) -> int;

/// Number of days of the month of this day number.
pub uninterp spec fn month_length(days: int) -> int;

/// Day number of the last day of the month of this day number.
pub open spec fn month_last(days: int) -> int {
    month_first(days) + month_length(days) - 1
}

/// The last day of a month can be computed for this day number:
/// it is not in December of chrono's last year.
pub open spec fn month_end_exists(days: int) -> bool {
    days < MAX_DAYS - 30
}

/// The Monday-to-Sunday week of this day number lies inside chrono's range.
pub open spec fn week_exists(days: int) -> bool {
    MIN_DAYS + 6 <= days <= MAX_DAYS - 6
}

/// Is the date the last day of its month?
/// The day after it lies in another month.
pub open spec fn is_month_end(days: int) -> bool {
    month_of(days) != month_of(days + 1)
}

/// Do both dates lie in the same month of the same year?
pub open spec fn same_month(a: int, b: int) -> bool {
    year_of(a) == year_of(b) && month_of(a) == month_of(b)
}

/// Do both dates lie in the same iso-week?
pub open spec fn same_week(a: int, b: int) -> bool {
    iso_week_of(a) == iso_week_of(b)
}

/// Day of the month.
///
/// Calls chrono's `Datelike::day`. The contract names the result
/// and states the documented range 1 to 31.
#[verifier::external_body]
pub(crate) fn day(d: Date) -> (r: u32)
    ensures
        r == day_of_month(d@),
        1 <= r <= 31,
        r <= month_length(d@),
{
    chrono::NaiveDate::from_num_days_from_ce_opt(d.days).unwrap().day()
}

/// Month of the year.
///
/// Calls chrono's `Datelike::month`. The contract names the result
/// and states the documented range 1 to 12.
#[verifier::external_body]
pub(crate) fn month(d: Date) -> (r: u32)
    ensures
        r == month_of(d@),
        1 <= r <= 12,
{
    chrono::NaiveDate::from_num_days_from_ce_opt(d.days).unwrap().month()
}

/// Year of the date.
///
/// Calls chrono's `Datelike::year`. The contract names the result.
#[verifier::external_body]
pub(crate) fn year(d: Date) -> (r: i32)
    ensures
        r == year_of(d@),
{
    chrono::NaiveDate::from_num_days_from_ce_opt(d.days).unwrap().year()
}

/// Weekday, Monday being 0.
///
/// Calls chrono's `Datelike::weekday` and `Weekday::num_days_from_monday`.
/// The contract states the weekday of the proleptic Gregorian calendar,
/// counted from day 1, a Monday, and its range 0 to 6.
#[verifier::external_body]
pub(crate) fn weekday(d: Date) -> (r: u32)
    ensures
        r == weekday_index(d@),
        r < 7,
{
    chrono::NaiveDate::from_num_days_from_ce_opt(d.days).unwrap().weekday().num_days_from_monday()
}

/// Iso-week as (iso-year, week number).
///
/// Calls chrono's `Datelike::iso_week` and reads `IsoWeek::year` and
/// `IsoWeek::week`; two `IsoWeek` values are equal exactly when both
/// agree. The contract names the result.
#[verifier::external_body]
pub(crate) fn iso_week(d: Date) -> (r: (i32, u32))
    ensures
        (r.0 as int, r.1 as int) == iso_week_of(d@),
{
    let w = chrono::NaiveDate::from_num_days_from_ce_opt(d.days).unwrap().iso_week();
    (w.year(), w.week())
}

/// First day of the month of the date.
///
/// Calls chrono's `Datelike::with_day(1)`, which always exists.
/// The contract names the result; as documented it keeps year and month
/// and has day 1, so it lies `day - 1` days before the date, is the first
/// of its own month and shares the month's length.
#[verifier::external_body]
pub(crate) fn first_day_of_month(d: Date) -> (r: Date)
    ensures
        r@ == month_first(d@),
        r@ <= d@,
        day_of_month(r@) == 1,
        same_month(r@, d@),
        r@ == d@ - (day_of_month(d@) - 1),
        month_first(r@) == r@,
        month_length(r@) == month_length(d@),
{
    let nd = chrono::NaiveDate::from_num_days_from_ce_opt(d.days).unwrap();
    Date { days: nd.with_day(1).unwrap().num_days_from_ce() }
}

/// Number of days of the month of the date.
///
/// Calls chrono's `Datelike::num_days_in_month`. The contract names the
/// result and states that a month has 28 to 31 days.
#[verifier::external_body]
pub(crate) fn days_in_month(d: Date) -> (r: u32)
    ensures
        r == month_length(d@),
        28 <= r <= 31,
{
    chrono::NaiveDate::from_num_days_from_ce_opt(d.days).unwrap().num_days_in_month() as u32
}

/// Last day of the month of the date: the day with the last 0-based
/// index of the month. Left out for December of chrono's last year, as
/// there the day after the month cannot be formed.
pub(crate) fn last_day_of_month(d: Date) -> (r: Date)
    requires
        month_end_exists(d@),
    ensures
        r@ == month_last(d@),
        d@ <= r@ <= d@ + 30,
        same_month(r@, d@),
        month_first(d@) + 27 <= r@,
{
    let n = days_in_month(d);
    let _k = day(d);
    let _f = first_day_of_month(d);
    match with_day0(d, n - 1) {
        Some(x) => x,
        None => d,
    }
}

/// Does the month of the date have a day with this 0-based index?
pub open spec fn day0_exists(days: int, day0: int) -> bool {
    0 <= day0 < month_length(days)
}

/// The day with the 0-based index `day0` in the month of the date.
///
/// Calls chrono's `Datelike::with_day0`, which gives `None` when the
/// month has no such day, that is when the index is not below the
/// month's length; every month has the indices below 28. The day found
/// lies `day0` days after the first of the month, in the same month.
#[verifier::external_body]
pub(crate) fn with_day0(d: Date, day0: u32) -> (r: Option<Date>)
    ensures
        r is Some == day0_exists(d@, day0 as int),
        day0 < 28 ==> r is Some,
        r matches Some(x) ==> x@ == month_first(d@) + day0 && same_month(x@, d@),
{
    let nd = chrono::NaiveDate::from_num_days_from_ce_opt(d.days).unwrap();
    match nd.with_day0(day0) {
        Some(x) => Some(Date { days: x.num_days_from_ce() }),
        None => None,
    }
}

/// Monday of the week of the date.
///
/// Calls chrono's `NaiveDate::week(Weekday::Mon).first_day()`, which
/// goes back by the weekday index (as its source computes it) and panics
/// outside chrono's range; `requires` keeps the whole week inside. The day found
/// is a Monday, as documented.
#[verifier::external_body]
pub(crate) fn week_first_day(d: Date) -> (r: Date)
    requires
        week_exists(d@),
    ensures
        r@ == d@ - weekday_index(d@),
        d@ - 6 <= r@ <= d@,
        weekday_index(r@) == 0,
{
    let nd = chrono::NaiveDate::from_num_days_from_ce_opt(d.days).unwrap();
    Date { days: nd.week(chrono::Weekday::Mon).first_day().num_days_from_ce() }
}

/// Sunday of the week of the date.
///
/// Calls chrono's `NaiveDate::week(Weekday::Mon).last_day()`, which
/// goes forward by 6 minus the weekday index (as its source computes it)
/// and panics outside chrono's range; `requires` keeps the whole week inside.
/// The day found is a Sunday, as documented.
#[verifier::external_body]
pub(crate) fn week_last_day(d: Date) -> (r: Date)
    requires
        week_exists(d@),
    ensures
        r@ == d@ + 6 - weekday_index(d@),
        d@ <= r@ <= d@ + 6,
        weekday_index(r@) == 6,
{
    let nd = chrono::NaiveDate::from_num_days_from_ce_opt(d.days).unwrap();
    Date { days: nd.week(chrono::Weekday::Mon).last_day().num_days_from_ce() }
}

/// Is the date the first day of its month?
pub(crate) fn is_first_day_of_month(d: Date) -> (r: bool)
    ensures
        r == (day_of_month(d@) == 1),
{
    day(d) == 1
}

/// Is the date the last day of its month?
pub(crate) fn is_last_day_of_month(d: Date) -> (r: bool)
    requires
        d@ < MAX_DAYS,
    ensures
        r == is_month_end(d@),
{
    match d.checked_add_days(1) {
        Some(next) => month(d) != month(next),
        None => false,
    }
}

/// Are both dates in the same month of the same year?
pub(crate) fn is_same_month(a: Date, b: Date) -> (r: bool)
    ensures
        r == same_month(a@, b@),
{
    year(a) == year(b) && month(a) == month(b)
}

/// Are both dates in the same iso-week?
pub(crate) fn is_same_week(a: Date, b: Date) -> (r: bool)
    ensures
        r == same_week(a@, b@),
{
    let wa = iso_week(a);
    let wb = iso_week(b);
    wa.0 == wb.0 && wa.1 == wb.1
}

/// Months counted from January of year 0: `year * 12 + month - 1`.
pub open spec fn month_index(days: int) -> int {
    year_of(days) * 12 + month_of(days) - 1
}

/// Day number of the date `n` months after this day number, if it exists.
pub uninterp spec fn months_later(days: int, n: int) -> Option<int>;

/// Day number of the date `n` months before this day number, if it exists.
pub uninterp spec fn months_earlier(days: int, n: int) -> Option<int>;

/// The date `n` months later.
///
/// Calls chrono's `NaiveDate::checked_add_months`, which moves the
/// year and month by `n` and keeps the day, cut to the length of the new
/// month, and gives `None` only when that date lies outside chrono's range.
/// The contract names the result and states what follows from that: the
/// month index grows by `n`, a first of the month stays a first, and as a
/// month has 28 to 31 days the result lies between `28 * n - 3` and
/// `31 * n` days later, so it exists whenever that upper bound does.
#[verifier::external_body]
pub(crate) fn add_months(d: Date, n: u32) -> (r: Option<Date>)
    ensures
        opt_days(r) == months_later(d@, n as int),
        n == 0 ==> opt_days(r) == Some(d@),
        d@ + 31 * n <= MAX_DAYS ==> r is Some,
        r matches Some(x) ==> {
            &&& d@ + 28 * n - 3 <= x@ <= d@ + 31 * n
            &&& month_index(x@) == month_index(d@) + n
            &&& day_of_month(d@) == 1 ==> day_of_month(x@) == 1
        },
{
    let nd = chrono::NaiveDate::from_num_days_from_ce_opt(d.days).unwrap();
    match nd.checked_add_months(chrono::Months::new(n)) {
        Some(x) => Some(Date { days: x.num_days_from_ce() }),
        None => None,
    }
}

/// The date `n` months earlier.
///
/// Calls chrono's `NaiveDate::checked_sub_months`, which moves the
/// year and month back by `n` and keeps the day, cut to the length of the
/// new month, and gives `None` only when that date lies outside chrono's
/// range. The contract names the result and states what follows from
/// that: the month index shrinks by `n`, a first of the month stays a
/// first, and the result lies between `31 * n + 3` and `28 * n` days
/// earlier, so it exists whenever that lower bound does.
#[verifier::external_body]
pub(crate) fn sub_months(d: Date, n: u32) -> (r: Option<Date>)
    ensures
        opt_days(r) == months_earlier(d@, n as int),
        n == 0 ==> opt_days(r) == Some(d@),
        d@ - 31 * n - 3 >= MIN_DAYS ==> r is Some,
        r matches Some(x) ==> {
            &&& d@ - 31 * n - 3 <= x@ <= d@ - 28 * n
            &&& month_index(x@) == month_index(d@) - n
            &&& day_of_month(d@) == 1 ==> day_of_month(x@) == 1
        },
{
    let nd = chrono::NaiveDate::from_num_days_from_ce_opt(d.days).unwrap();
    match nd.checked_sub_months(chrono::Months::new(n)) {
        Some(x) => Some(Date { days: x.num_days_from_ce() }),
        None => None,
    }
}

} // verus!
