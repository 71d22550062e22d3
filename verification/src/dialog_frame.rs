//!
//! Result of dialog event handling.
//!
use crate::event::Outcome;
use vstd::prelude::*;
use vstd::std_specs::convert::FromSpecImpl;

verus! {

/// Result type for event-handling.
#[derive(Debug, Clone, Copy, PartialEq, Eq, Structural)]
pub enum DialogOutcome {
    /// Continue with event-handling.
    /// In the event-loop this waits for the next event.
    Continue,
    /// Break event-handling without repaint.
    /// In the event-loop this waits for the next event.
    Unchanged,
    /// Break event-handling and repaints/renders the application.
    /// In the event-loop this calls `render`.
    Changed,
    /// Ok pressed
    Okay,
    /// Cancel pressed
    Cancel,
}

impl DialogOutcome {
    /// Has the event been used up?
    pub fn is_consumed(&self) -> (r: bool)
        ensures
            r == !(*self is Continue),
    {
        !matches!(self, DialogOutcome::Continue)
    }
}

impl From<Outcome> for DialogOutcome {
    fn from(value: Outcome) -> (r: Self) {
        match value {
            Outcome::Continue => DialogOutcome::Continue,
            Outcome::Unchanged => DialogOutcome::Unchanged,
            Outcome::Changed => DialogOutcome::Changed,
        }
    }
}

impl FromSpecImpl<Outcome> for DialogOutcome {
    open spec fn obeys_from_spec() -> bool {
        true
    }

    open spec fn from_spec(value: Outcome) -> DialogOutcome {
        match value {
            Outcome::Continue => DialogOutcome::Continue,
            Outcome::Unchanged => DialogOutcome::Unchanged,
            Outcome::Changed => DialogOutcome::Changed,
        }
    }
}

impl From<DialogOutcome> for Outcome {
    fn from(value: DialogOutcome) -> (r: Self) {
        match value {
            DialogOutcome::Continue => Outcome::Continue,
            DialogOutcome::Unchanged => Outcome::Unchanged,
            DialogOutcome::Changed => Outcome::Changed,
            DialogOutcome::Okay => Outcome::Changed,
            DialogOutcome::Cancel => Outcome::Changed,
        }
    }
}

impl FromSpecImpl<DialogOutcome> for Outcome {
    open spec fn obeys_from_spec() -> bool {
        true
    }

    open spec fn from_spec(value: DialogOutcome) -> Outcome {
        match value {
            DialogOutcome::Continue => Outcome::Continue,
            DialogOutcome::Unchanged => Outcome::Unchanged,
            DialogOutcome::Changed => Outcome::Changed,
            DialogOutcome::Okay => Outcome::Changed,
            DialogOutcome::Cancel => Outcome::Changed,
        }
    }
}

} // verus!
