//!
//! Render two widgets in one area: how the area is split, the states and
//! adapters.
//!
use crate::geometry::{Constraint, Direction, Flex, Rect};
use crate::layout::solver::{is_split, solver_split, Layout};
use std::marker::PhantomData;
use vstd::prelude::*;

verus! {

/// State for a pair of widgets: the states of both.
#[derive(Debug)]
pub struct PairedState<'a, TS, US> {
    pub first: &'a mut TS,
    pub second: &'a mut US,
}

impl<'a, TS, US> PairedState<'a, TS, US> {
    /// Pair up the two states.
    pub fn new(first: &'a mut TS, second: &'a mut US) -> (r: Self)
        ensures
            *r.first == *old(first),
            *r.second == *old(second),
    {
        Self { first, second }
    }
}

/// Adapter that pairs a plain widget with a stateful one:
/// it holds the widget and takes `()` as state.
#[derive(Debug)]
pub struct PairedWidget<'a, T> {
    widget: T,
    phantom: PhantomData<&'a ()>,
}

impl<'a, T> PairedWidget<'a, T> {
    /// Wrap the widget.
    pub fn new(widget: T) -> (r: Self)
        ensures
            r.widget() == widget,
    {
        Self { widget, phantom: PhantomData }
    }

    /// The wrapped widget.
    pub closed spec fn widget(&self) -> T {
        self.widget
    }

    /// Unwrap the widget.
    pub fn into_inner(self) -> (r: T)
        ensures
            r == self.widget(),
    {
        self.widget
    }
}

/// How the area is split between the two widgets.
#[derive(Debug, Clone, Copy, PartialEq, Eq, Structural)]
pub enum PairSplit {
    /// Fixed lengths for both.
    Fix(u16, u16),
    /// Fixed length for the first, the rest for the second.
    Fix1(u16),
    /// Fixed length for the second, the rest for the first.
    Fix2(u16),
    /// Shares of the length.
    Ratio(u16, u16),
    /// Constraints for both.
    Constrain(Constraint, Constraint),
}

/// The constraints for the two parts.
pub open spec fn pair_constraints(split: PairSplit) -> Seq<Constraint> {
    match split {
        PairSplit::Fix(a, b) => seq![Constraint::Length(a), Constraint::Length(b)],
        PairSplit::Fix1(a) => seq![Constraint::Length(a), Constraint::Fill(1)],
        PairSplit::Fix2(b) => seq![Constraint::Fill(1), Constraint::Length(b)],
        PairSplit::Ratio(a, b) => seq![Constraint::Fill(a), Constraint::Fill(b)],
        PairSplit::Constrain(a, b) => seq![a, b],
    }
}

/// The constraints handed to the layout solver for the two parts.
pub fn split_constraints(split: PairSplit) -> (r: Vec<Constraint>)
    ensures
        r@ == pair_constraints(split),
{
    let r = match split {
        PairSplit::Fix(a, b) => vec![Constraint::Length(a), Constraint::Length(b)],
        PairSplit::Fix1(a) => vec![Constraint::Length(a), Constraint::Fill(1)],
        PairSplit::Fix2(b) => vec![Constraint::Fill(1), Constraint::Length(b)],
        PairSplit::Ratio(a, b) => vec![Constraint::Fill(a), Constraint::Fill(b)],
        PairSplit::Constrain(a, b) => vec![a, b],
    };
    assert(r@ =~= pair_constraints(split));
    r
}

/// Two widgets side by side in one area.
#[derive(Debug)]
pub struct Paired<'a, T, U> {
    first: T,
    second: U,
    split: PairSplit,
    spacing: u16,
    flex: Flex,
    phantom: PhantomData<&'a ()>,
}

impl<'a, T, U> Paired<'a, T, U> {
    /// The two widgets.
    pub closed spec fn widgets(&self) -> (T, U) {
        (self.first, self.second)
    }

    /// How the area is split, the spacing and the flex.
    pub closed spec fn settings(&self) -> (PairSplit, u16, Flex) {
        (self.split, self.spacing, self.flex)
    }

    /// Both widgets, in equal shares with one column between them.
    pub fn new(first: T, second: U) -> (r: Self)
        ensures
            r.widgets() == (first, second),
            r.settings() == (PairSplit::Ratio(1, 1), 1u16, Flex::Start),
    {
        Paired {
            first,
            second,
            split: PairSplit::Ratio(1, 1),
            spacing: 1,
            flex: Flex::Start,
            phantom: PhantomData,
        }
    }

    /// How the area is split.
    pub fn split(self, split: PairSplit) -> (r: Self)
        ensures
            r.widgets() == self.widgets(),
            r.settings() == (split, self.settings().1, self.settings().2),
    {
        Paired { split, ..self }
    }

    /// Columns between the widgets.
    pub fn spacing(self, spacing: u16) -> (r: Self)
        ensures
            r.widgets() == self.widgets(),
            r.settings() == (self.settings().0, spacing, self.settings().2),
    {
        Paired { spacing, ..self }
    }

    /// Where excess space goes.
    pub fn flex(self, flex: Flex) -> (r: Self)
        ensures
            r.widgets() == self.widgets(),
            r.settings() == (self.settings().0, self.settings().1, flex),
    {
        Paired { flex, ..self }
    }

    /// The areas of the first and the second widget: the solver's
    /// horizontal split of the area by the constraints of the split (see
    /// [split_constraints]), with the spacing and the flex.
    pub fn layout(&self, area: Rect) -> (r: Vec<Rect>)
        ensures
            is_split(Direction::Horizontal, area, 2, r@),
            solver_split(
                Direction::Horizontal,
                pair_constraints(self.settings().0),
                self.settings().1,
                self.settings().2,
                area,
                r@,
            ),
    {
        let constraints = split_constraints(self.split);
        Layout::horizontal(constraints).spacing(self.spacing).flex(self.flex).split(area)
    }
}

} // verus!
