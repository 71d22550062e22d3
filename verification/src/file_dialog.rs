//!
//! Result of file dialog event handling.
//!
use crate::event::Outcome;
use std::path::PathBuf;
use vstd::prelude::*;
use vstd::std_specs::convert::FromSpecImpl;

verus! {

/// A path of the file system, carried through as is.
#[verifier::external_type_specification]
#[verifier::external_body]
pub struct ExPathBuf(PathBuf);

/// `PathBuf::clone`: nothing is claimed of the copy.
pub assume_specification[ <PathBuf as Clone>::clone ](path: &PathBuf) -> PathBuf;

/// Result for the FileDialog.
#[derive(Debug, Clone, PartialEq, Eq)]
pub enum FileOutcome {
    /// The given event has not been used at all.
    Continue,
    /// The event has been recognized, but the result was nil.
    /// Further processing for this event may stop.
    Unchanged,
    /// The event has been recognized and there is some change
    /// due to it.
    /// Further processing for this event may stop.
    /// Rendering the ui is advised.
    Changed,
    /// Cancel
    Cancel,
    /// Ok
    Okay(PathBuf),
    /// Ok, when started as a dialog that opens many files.
    OkList(Vec<PathBuf>),
}

impl FileOutcome {
    /// Has the event been used up?
    pub fn is_consumed(&self) -> (r: bool)
        ensures
            r == !(*self is Continue),
    {
        !matches!(self, FileOutcome::Continue)
    }
}

impl From<FileOutcome> for Outcome {
    fn from(value: FileOutcome) -> (r: Self) {
        match value {
            FileOutcome::Continue => Outcome::Continue,
            FileOutcome::Unchanged => Outcome::Unchanged,
            FileOutcome::Changed => Outcome::Changed,
            FileOutcome::Okay(_) => Outcome::Changed,
            FileOutcome::Cancel => Outcome::Changed,
            FileOutcome::OkList(_) => Outcome::Changed,
        }
    }
}

impl FromSpecImpl<FileOutcome> for Outcome {
    open spec fn obeys_from_spec() -> bool {
        true
    }

    open spec fn from_spec(value: FileOutcome) -> Outcome {
        match value {
            FileOutcome::Continue => Outcome::Continue,
            FileOutcome::Unchanged => Outcome::Unchanged,
            FileOutcome::Changed => Outcome::Changed,
            FileOutcome::Okay(_) => Outcome::Changed,
            FileOutcome::Cancel => Outcome::Changed,
            FileOutcome::OkList(_) => Outcome::Changed,
        }
    }
}

impl From<Outcome> for FileOutcome {
    fn from(value: Outcome) -> (r: Self) {
        match value {
            Outcome::Continue => FileOutcome::Continue,
            Outcome::Unchanged => FileOutcome::Unchanged,
            Outcome::Changed => FileOutcome::Changed,
        }
    }
}

impl FromSpecImpl<Outcome> for FileOutcome {
    open spec fn obeys_from_spec() -> bool {
        true
    }

    open spec fn from_spec(value: Outcome) -> FileOutcome {
        match value {
            Outcome::Continue => FileOutcome::Continue,
            Outcome::Unchanged => FileOutcome::Unchanged,
            Outcome::Changed => FileOutcome::Changed,
        }
    }
}

impl From<bool> for FileOutcome {
    /// Changed for true, Unchanged for false.
    fn from(value: bool) -> (r: Self) {
        if value {
            FileOutcome::Changed
        } else {
            FileOutcome::Unchanged
        }
    }
}

impl FromSpecImpl<bool> for FileOutcome {
    open spec fn obeys_from_spec() -> bool {
        true
    }

    open spec fn from_spec(value: bool) -> FileOutcome {
        if value {
            FileOutcome::Changed
        } else {
            FileOutcome::Unchanged
        }
    }
}

} // verus!
