//!
//! Different selection models for a list.
//!
use crate::list::ListSelection;
use std::collections::HashSet;
use vstd::prelude::*;
use vstd::std_specs::hash::group_hash_axioms;

verus! {

broadcast use group_hash_axioms;

/// No selection.
#[derive(Debug, Default, Clone, Copy)]
pub struct NoSelection;

impl ListSelection for NoSelection {
    open spec fn selects(&self, n: int) -> bool {
        false
    }

    open spec fn selection_count(&self) -> nat {
        0
    }

    open spec fn lead(&self) -> Option<usize> {
        None
    }

    open spec fn scrolls_selected(&self) -> bool {
        false
    }

    fn count(&self) -> (r: usize) {
        0
    }

    fn is_selected(&self, n: usize) -> (r: bool) {
        false
    }

    fn lead_selection(&self) -> (r: Option<usize>) {
        None
    }

    fn scroll_selected(&self) -> (r: bool) {
        false
    }
}

/// Single element selection.
#[derive(Debug, Default, Clone, Copy)]
pub struct RowSelection {
    /// Selected row.
    pub lead_row: Option<usize>,
    /// Scroll the selection instead of the offset.
    pub scroll_selected: bool,
}

impl ListSelection for RowSelection {
    open spec fn selects(&self, n: int) -> bool {
        self.lead_row == Some(n as usize) && 0 <= n <= usize::MAX
    }

    open spec fn selection_count(&self) -> nat {
        if self.lead_row is Some {
            1
        } else {
            0
        }
    }

    open spec fn lead(&self) -> Option<usize> {
        self.lead_row
    }

    open spec fn scrolls_selected(&self) -> bool {
        self.scroll_selected
    }

    fn count(&self) -> (r: usize) {
        if self.lead_row.is_some() {
            1
        } else {
            0
        }
    }

    fn is_selected(&self, n: usize) -> (r: bool) {
        match self.lead_row {
            Some(lead) => lead == n,
            None => false,
        }
    }

    fn lead_selection(&self) -> (r: Option<usize>) {
        self.lead_row
    }

    fn scroll_selected(&self) -> (r: bool) {
        self.scroll_selected
    }
}

/// Selection of a range of rows plus a set of further rows.
#[derive(Debug, Default)]
pub struct RowSetSelection {
    /// Start of the current range.
    pub anchor_row: Option<usize>,
    /// End of the current range.
    pub lead_row: Option<usize>,
    /// Rows selected apart from the current range.
    pub selected: HashSet<usize>,
}

/// Number of rows between anchor and lead, both included.
pub open spec fn range_count(anchor: Option<usize>, lead: Option<usize>) -> nat {
    match (anchor, lead) {
        (Some(a), Some(l)) => (if a >= l {
            a - l + 1
        } else {
            l - a + 1
        }) as nat,
        _ => 0,
    }
}

/// Does the current range contain row `n`?
/// With a lead but no anchor only the lead is selected.
pub open spec fn range_selects(anchor: Option<usize>, lead: Option<usize>, n: int) -> bool {
    match (anchor, lead) {
        (Some(a), Some(l)) => (a <= n <= l) || (l <= n <= a),
        (None, Some(l)) => n == l,
        _ => false,
    }
}

impl ListSelection for RowSetSelection {
    open spec fn selects(&self, n: int) -> bool {
        range_selects(self.anchor_row, self.lead_row, n) || (0 <= n <= usize::MAX
            && self.selected@.contains(n as usize))
    }

    open spec fn selection_count(&self) -> nat {
        range_count(self.anchor_row, self.lead_row) + self.selected@.len()
    }

    open spec fn lead(&self) -> Option<usize> {
        self.lead_row
    }

    open spec fn scrolls_selected(&self) -> bool {
        false
    }

    fn count(&self) -> (r: usize) {
        let n: usize = match (self.anchor_row, self.lead_row) {
            (Some(anchor), Some(lead)) => if anchor >= lead {
                anchor - lead + 1
            } else {
                lead - anchor + 1
            },
            _ => 0,
        };
        n + self.selected.len()
    }

    fn is_selected(&self, n: usize) -> (r: bool) {
        match (self.anchor_row, self.lead_row) {
            (Some(anchor), Some(lead)) => {
                let (lo, hi) = if lead < anchor {
                    (lead, anchor)
                } else {
                    (anchor, lead)
                };
                if n >= lo && n <= hi {
                    return true;
                }
            },
            (None, Some(lead)) => {
                if n == lead {
                    return true;
                }
            },
            _ => {},
        }
        self.selected.contains(&n)
    }

    fn lead_selection(&self) -> (r: Option<usize>) {
        self.lead_row
    }

    fn scroll_selected(&self) -> (r: bool) {
        false
    }
}

} // verus!
