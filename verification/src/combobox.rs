//!
//! Result of combobox event handling.
//!
use crate::choice::{choice_select_result, handle_select as choice_select, ChoiceCore, ChoiceOutcome, ChoiceSelect, ScrollEffect, ScrollStep, SelectResult};
use crate::event::MouseInput;
use crate::geometry::{first_at, Rect};
use crate::event::Outcome;
use vstd::prelude::*;
use vstd::std_specs::convert::FromSpecImpl;

verus! {

/// Result value for event-handling.
#[derive(Debug, Clone, Copy, PartialEq, Eq, Structural)]
pub enum ComboboxOutcome {
    /// The given event was not handled at all.
    Continue,
    /// The event was handled, no repaint necessary.
    Unchanged,
    /// The event was handled, repaint necessary.
    Changed,
    /// An item has been selected.
    Value,
    /// Textinput has changed
    TextChanged,
}

impl ComboboxOutcome {
    /// Has the event been used up?
    pub fn is_consumed(&self) -> (r: bool)
        ensures
            r == !(*self is Continue),
    {
        !matches!(self, ComboboxOutcome::Continue)
    }
}

/// The outcome of the combobox for an outcome of its choice list, as the
/// moves and the mouse selection in the popup report it: the same name;
/// on `Value` the caller puts the choice's value into the text input.
pub fn choice_outcome(o: ChoiceOutcome) -> (r: ComboboxOutcome)
    ensures
        r == match o {
            ChoiceOutcome::Continue => ComboboxOutcome::Continue,
            ChoiceOutcome::Unchanged => ComboboxOutcome::Unchanged,
            ChoiceOutcome::Changed => ComboboxOutcome::Changed,
            ChoiceOutcome::Value => ComboboxOutcome::Value,
        },
{
    match o {
        ChoiceOutcome::Continue => ComboboxOutcome::Continue,
        ChoiceOutcome::Unchanged => ComboboxOutcome::Unchanged,
        ChoiceOutcome::Changed => ComboboxOutcome::Changed,
        ChoiceOutcome::Value => ComboboxOutcome::Value,
    }
}

/// Result of the mouse selection in the combobox's popup: an outcome, or a
/// scroll of the popup list that the caller does before it calls
/// [crate::choice::after_scroll] and maps that outcome with [choice_outcome].
#[derive(Debug, Clone, Copy, PartialEq, Eq, Structural)]
pub enum ComboboxSelect {
    Done(ComboboxOutcome),
    Scroll(ScrollStep, ScrollEffect),
}

/// The combobox's result for a result of its choice list.
pub open spec fn combobox_select(r: SelectResult) -> ComboboxSelect {
    match r {
        SelectResult::Done(o) => ComboboxSelect::Done(match o {
            ChoiceOutcome::Continue => ComboboxOutcome::Continue,
            ChoiceOutcome::Unchanged => ComboboxOutcome::Unchanged,
            ChoiceOutcome::Changed => ComboboxOutcome::Changed,
            ChoiceOutcome::Value => ComboboxOutcome::Value,
        }),
        SelectResult::Scroll(st, e) => ComboboxSelect::Scroll(st, e),
    }
}

/// Handles the selection with the mouse in the combobox's open popup, as
/// the choice list does it ([crate::choice::handle_select]) with the
/// popup's area; on `Value` the caller puts the choice's value into the
/// text input.
pub fn handle_select<T: PartialEq + Clone + Default>(
    core: &mut ChoiceCore<T>,
    popup_active: &mut bool,
    mode: ChoiceSelect,
    scroll: Option<ScrollStep>,
    m: MouseInput,
    popup_area: Rect,
    item_areas: &Vec<Rect>,
    offset: usize,
) -> (r: ComboboxSelect)
    requires
        old(core).wf(),
        first_at(item_areas@, m.column, m.row) matches Some(i) ==> offset + i <= usize::MAX,
        mode == ChoiceSelect::MouseScroll ==> (scroll matches Some(ScrollStep::Down(n)) ==> (
            old(core).selected_view() matches Some(i) ==> i + n <= usize::MAX)),
    ensures
        final(core).wf(),
        final(core).values_view() == old(core).values_view(),
        final(core).default_view() == old(core).default_view(),
        exists|c: SelectResult|
            r == combobox_select(c) && #[trigger] choice_select_result(
                *old(core),
                *final(core),
                *old(popup_active),
                *final(popup_active),
                mode,
                scroll,
                m,
                popup_area,
                item_areas@,
                offset,
                c,
            ),
{
    let c = choice_select(core, popup_active, mode, scroll, m, popup_area, item_areas, offset);
    let r = match c {
        SelectResult::Done(o) => ComboboxSelect::Done(choice_outcome(o)),
        SelectResult::Scroll(st, e) => ComboboxSelect::Scroll(st, e),
    };
    assert(choice_select_result(*old(core), *final(core), *old(popup_active), *final(popup_active), mode, scroll, m,
        popup_area, item_areas@, offset, c));
    r
}

impl From<Outcome> for ComboboxOutcome {
    fn from(value: Outcome) -> (r: Self) {
        match value {
            Outcome::Continue => ComboboxOutcome::Continue,
            Outcome::Unchanged => ComboboxOutcome::Unchanged,
            Outcome::Changed => ComboboxOutcome::Changed,
        }
    }
}

impl FromSpecImpl<Outcome> for ComboboxOutcome {
    open spec fn obeys_from_spec() -> bool {
        true
    }

    open spec fn from_spec(value: Outcome) -> ComboboxOutcome {
        match value {
            Outcome::Continue => ComboboxOutcome::Continue,
            Outcome::Unchanged => ComboboxOutcome::Unchanged,
            Outcome::Changed => ComboboxOutcome::Changed,
        }
    }
}

impl From<ComboboxOutcome> for Outcome {
    fn from(value: ComboboxOutcome) -> (r: Self) {
        match value {
            ComboboxOutcome::Continue => Outcome::Continue,
            ComboboxOutcome::Unchanged => Outcome::Unchanged,
            ComboboxOutcome::Changed => Outcome::Changed,
            ComboboxOutcome::Value => Outcome::Changed,
            ComboboxOutcome::TextChanged => Outcome::Changed,
        }
    }
}

impl FromSpecImpl<ComboboxOutcome> for Outcome {
    open spec fn obeys_from_spec() -> bool {
        true
    }

    open spec fn from_spec(value: ComboboxOutcome) -> Outcome {
        match value {
            ComboboxOutcome::Continue => Outcome::Continue,
            ComboboxOutcome::Unchanged => Outcome::Unchanged,
            ComboboxOutcome::Changed => Outcome::Changed,
            ComboboxOutcome::Value => Outcome::Changed,
            ComboboxOutcome::TextChanged => Outcome::Changed,
        }
    }
}

} // verus!
