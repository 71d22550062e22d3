//!
//! List selection models.
//!
pub mod rows;
pub mod selection;

use vstd::prelude::*;

verus! {

/// Trait for list-selection.
pub trait ListSelection {
    /// Does the selection contain row `n`?
    spec fn selects(&self, n: int) -> bool;

    /// Number of selected rows.
    spec fn selection_count(&self) -> nat;

    /// The selection lead.
    spec fn lead(&self) -> Option<usize>;

    /// Does the selection scroll instead of the offset?
    spec fn scrolls_selected(&self) -> bool;

    /// Number of selected rows.
    fn count(&self) -> (r: usize)
        requires
            self.selection_count() <= usize::MAX,
        ensures
            r == self.selection_count(),
    ;

    /// Is selected.
    fn is_selected(&self, n: usize) -> (r: bool)
        ensures
            r == self.selects(n as int),
    ;

    /// Selection lead.
    fn lead_selection(&self) -> (r: Option<usize>)
        ensures
            r == self.lead(),
    ;

    /// Scroll the selection instead of the offset.
    fn scroll_selected(&self) -> (r: bool)
        ensures
            r == self.scrolls_selected(),
    ;
}

} // verus!
