//!
//! Calendar selection models.
//!
//! There are 3 selection-models that can be used:
//! - [NoSelection](selection::NoSelection): Scrolling is still possible.
//! - [SingleSelection](selection::SingleSelection): Selection of a single day.
//! - [RangeSelection](selection::RangeSelection): Selection of any date range.
//!
pub mod date;
pub mod event;
pub mod calendar;
pub mod month;
pub mod month_event;
pub mod selection;

use crate::calendar::date::Date;
use vstd::prelude::*;

verus! {

/// How should `move_to_today()` behave.
#[derive(Debug, Clone, Copy, PartialEq, Eq, Structural)]
pub enum TodayPolicy {
    /// Set the current date at the given month index and fill
    /// out the rest accordingly.
    Index(usize),
    /// Behave like a yearly calendar. Sets the calendar to the
    /// current year and focuses on the month of the current date.
    Year,
}

impl Default for TodayPolicy {
    fn default() -> (r: Self)
        ensures
            r == TodayPolicy::Index(0),
    {
        TodayPolicy::Index(0)
    }
}

/// Selection model for a calendar.
pub trait CalendarSelection {
    /// Does the selection contain the day with this day number?
    spec fn selects(&self, days: int) -> bool;

    /// Number of selected days.
    spec fn selection_count(&self) -> nat;

    /// Day number of the lead selection.
    spec fn lead(&self) -> Option<int>;

    /// Select day count.
    fn count(&self) -> (r: usize)
        ensures
            r == self.selection_count(),
    ;

    /// Is the given day selected.
    fn is_selected(&self, date: Date) -> (r: bool)
        ensures
            r == self.selects(date@),
    ;

    /// Selection lead, or the sole selected day.
    fn lead_selection(&self) -> (r: Option<Date>)
        ensures
            crate::calendar::date::opt_days(r) == self.lead(),
    ;
}

} // verus!
