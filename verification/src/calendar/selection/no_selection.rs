//!
//! No selection at all.
//!
use crate::calendar::date::Date;
use crate::calendar::CalendarSelection;
use vstd::prelude::*;

verus! {

/// No selection model.
///
/// Scrolling the calendar is still possible.
#[derive(Debug, Default, Clone, Copy)]
pub struct NoSelection;

impl CalendarSelection for NoSelection {
    open spec fn selects(&self, days: int) -> bool {
        false
    }

    open spec fn selection_count(&self) -> nat {
        0
    }

    open spec fn lead(&self) -> Option<int> {
        None
    }

    fn count(&self) -> (r: usize) {
        0
    }

    fn is_selected(&self, date: Date) -> (r: bool) {
        false
    }

    fn lead_selection(&self) -> (r: Option<Date>) {
        None
    }
}

} // verus!
