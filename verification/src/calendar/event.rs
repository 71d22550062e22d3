//!
//! Result of calendar event handling.
//!
use crate::event::Outcome;
use vstd::prelude::*;
use vstd::std_specs::convert::FromSpecImpl;

verus! {

/// Result of event handling.
#[derive(Debug, Clone, Copy, PartialEq, Eq, PartialOrd, Ord, Structural)]
pub enum CalOutcome {
    /// The given event has not been used at all.
    Continue,
    /// The event has been recognized, but the result was nil.
    /// Further processing for this event may stop.
    Unchanged,
    /// The event has been recognized and there is some change
    /// due to it.
    /// Further processing for this event may stop.
    /// Rendering the ui is advised.
    Changed,
    /// The selection has changed.
    Selected,
}

impl CalOutcome {
    /// Has the event been used up?
    pub fn is_consumed(&self) -> (r: bool)
        ensures
            r == (*self != CalOutcome::Continue),
    {
        !matches!(self, CalOutcome::Continue)
    }
}

impl From<Outcome> for CalOutcome {
    fn from(value: Outcome) -> (r: Self) {
        match value {
            Outcome::Continue => CalOutcome::Continue,
            Outcome::Unchanged => CalOutcome::Unchanged,
            Outcome::Changed => CalOutcome::Changed,
        }
    }
}

impl FromSpecImpl<Outcome> for CalOutcome {
    open spec fn obeys_from_spec() -> bool {
        true
    }

    open spec fn from_spec(value: Outcome) -> CalOutcome {
        match value {
            Outcome::Continue => CalOutcome::Continue,
            Outcome::Unchanged => CalOutcome::Unchanged,
            Outcome::Changed => CalOutcome::Changed,
        }
    }
}

impl From<CalOutcome> for Outcome {
    fn from(value: CalOutcome) -> (r: Self) {
        match value {
            CalOutcome::Continue => Outcome::Continue,
            CalOutcome::Unchanged => Outcome::Unchanged,
            CalOutcome::Changed => Outcome::Changed,
            CalOutcome::Selected => Outcome::Changed,
        }
    }
}

impl FromSpecImpl<CalOutcome> for Outcome {
    open spec fn obeys_from_spec() -> bool {
        true
    }

    open spec fn from_spec(value: CalOutcome) -> Outcome {
        match value {
            CalOutcome::Continue => Outcome::Continue,
            CalOutcome::Unchanged => Outcome::Unchanged,
            CalOutcome::Changed => Outcome::Changed,
            CalOutcome::Selected => Outcome::Changed,
        }
    }
}

} // verus!
