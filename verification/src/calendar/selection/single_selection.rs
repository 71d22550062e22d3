//!
//! Selection of a single day.
//!
use crate::calendar::date::{opt_days, Date};
use crate::calendar::CalendarSelection;
use vstd::prelude::*;

verus! {

/// Can select a single date.
#[derive(Debug, Default, Clone, Copy)]
pub struct SingleSelection {
    selected: Option<Date>,
}

impl View for SingleSelection {
    /// The selected day number.
    type V = Option<int>;

    closed spec fn view(&self) -> Option<int> {
        opt_days(self.selected)
    }
}

impl SingleSelection {
    /// Empty selection.
    pub fn new() -> (r: Self)
        ensures
            r@ is None,
    {
        SingleSelection { selected: None }
    }

    /// Clear the selection.
    pub fn clear(&mut self)
        ensures
            final(self)@ is None,
    {
        self.selected = None;
    }

    /// Number of selected days.
    pub fn len(&self) -> (r: usize)
        ensures
            r == (if self@ is Some {
                1usize
            } else {
                0usize
            }),
    {
        if self.selected.is_some() {
            1
        } else {
            0
        }
    }

    /// Select the date. Returns true if this changed the selection.
    pub fn select(&mut self, date: Date) -> (r: bool)
        ensures
            final(self)@ == Some(date@),
            r == (old(self)@ != Some(date@)),
    {
        let old = self.selected;
        self.selected = Some(date);
        !Date::same_date(old, self.selected)
    }

    /// The selected date.
    pub fn selected(&self) -> (r: Option<Date>)
        ensures
            opt_days(r) == self@,
    {
        self.selected
    }
}

impl CalendarSelection for SingleSelection {
    open spec fn selects(&self, days: int) -> bool {
        self@ == Some(days)
    }

    open spec fn selection_count(&self) -> nat {
        if self@ is Some {
            1
        } else {
            0
        }
    }

    open spec fn lead(&self) -> Option<int> {
        self@
    }

    fn count(&self) -> (r: usize) {
        self.len()
    }

    fn is_selected(&self, date: Date) -> (r: bool) {
        Date::same_date(self.selected, Some(date))
    }

    fn lead_selection(&self) -> (r: Option<Date>) {
        self.selected
    }
}

} // verus!
