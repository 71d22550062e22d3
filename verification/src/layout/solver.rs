//!
//! Splitting an area by constraints, as the rendering backend's layout
//! solver does it.
//!
use crate::geometry::Constraint::{Fill, Length, Max, Min, Percentage, Ratio};
use crate::geometry::Flex::{Center, End, Legacy, SpaceAround, SpaceBetween, SpaceEvenly, Start};
use crate::geometry::{Constraint, Direction, Flex, Rect};
use ratatui_core::layout::{Constraint as C, Flex as F, Layout as Solver, Rect as R};
use vstd::prelude::*;

verus! {

/// The layout solver can give the parts `spans`, start and length of each
/// along the line, for the constraints, the spacing and the flex on the
/// line from `start` of length `len`: they are one of the placements it
/// finds best. Which one of several comes back is not fixed.
pub uninterp spec fn solver_gives(
    constraints: Seq<Constraint>,
    spacing: u16,
    flex: Flex,
    start: u16,
    len: u16,
    spans: Seq<(u16, u16)>,
) -> bool;

/// Splits a line by the constraints, as the layout solver does.
///
/// Calls ratatui-core's `Layout::horizontal(constraints)` with the spacing
/// and flex, and its `split` of a rectangle with the line's start and
/// length across, and returns the start and width of each part. The
/// contract states that the result is one the solver can give for these
/// arguments, one part per constraint, and what the source shows of every
/// outcome: the solver's required constraints keep every variable between
/// the line's start and end, and the rounding and the saturating width
/// keep each part inside the line. Which part goes where is not named: the
/// solver picks its pivots by walking hash maps whose hasher each process
/// seeds, so where several placements are best, neither the source nor
/// the documentation shows which one comes back. Nor is an order of the
/// parts stated: the required constraints order the two ends of each part,
/// and the spacers between parts are held to the spacing only by a strong,
/// not a required, constraint. The solver's failure, which the source
/// turns into a panic, is left unsaid: its required constraints can always
/// be met.
#[verifier::external_body]
fn solve(constraints: &Vec<Constraint>, spacing: u16, flex: Flex, start: u16, len: u16) -> (r: Vec<(u16, u16)>)
    ensures
        solver_gives(constraints@, spacing, flex, start, len, r@),
        r@.len() == constraints@.len(),
        forall|i: int| 0 <= i < r@.len() ==> start <= (#[trigger] r@[i]).0 && r@[i].0 + r@[i].1 <= start + len,
{
    Solver::horizontal(constraints.iter().map(|c| match *c { Min(v) => C::Min(v), Max(v) => C::Max(v), Length(v) => C::Length(v), Percentage(v) => C::Percentage(v), Ratio(a, b) => C::Ratio(a, b), Fill(v) => C::Fill(v) }))
        .spacing(spacing)
        .flex(match flex { Legacy => F::Legacy, Start => F::Start, End => F::End, Center => F::Center, SpaceBetween => F::SpaceBetween, SpaceEvenly => F::SpaceEvenly, SpaceAround => F::SpaceAround })
        .split(R::new(start, 0, len, 0))
        .iter().map(|r| (r.x, r.width)).collect()
}

/// The area of a part with the given start and length along the direction,
/// spanning the whole area across it.
pub open spec fn span_rect(direction: Direction, area: Rect, s: (u16, u16)) -> Rect {
    match direction {
        Direction::Horizontal => Rect { x: s.0, y: area.y, width: s.1, height: area.height },
        Direction::Vertical => Rect { x: area.x, y: s.0, width: area.width, height: s.1 },
    }
}

/// Start and length of the area along the direction.
pub open spec fn along(direction: Direction, area: Rect) -> (u16, u16) {
    match direction {
        Direction::Horizontal => (area.x, area.width),
        Direction::Vertical => (area.y, area.height),
    }
}

/// `parts` are the areas of a split of `area` in the direction into `n`
/// parts: each spans the whole area across the direction and lies inside
/// it along the direction.
pub open spec fn is_split(direction: Direction, area: Rect, n: int, parts: Seq<Rect>) -> bool {
    &&& parts.len() == n
    &&& forall|i: int| 0 <= i < n ==> (#[trigger] parts[i]) == span_rect(direction, area, along(direction, parts[i]))
    &&& forall|i: int|
        0 <= i < n ==> along(direction, area).0 <= along(direction, #[trigger] parts[i]).0 && along(direction, parts[i]).0
            + along(direction, parts[i]).1 <= along(direction, area).0 + along(direction, area).1
}

/// `parts` are areas the layout solver can give for splitting `area` in
/// the direction by the constraints, with the spacing and the flex.
pub open spec fn solver_split(
    direction: Direction,
    constraints: Seq<Constraint>,
    spacing: u16,
    flex: Flex,
    area: Rect,
    parts: Seq<Rect>,
) -> bool {
    exists|spans: Seq<(u16, u16)>|
        #[trigger] solver_gives(constraints, spacing, flex, along(direction, area).0, along(direction, area).1, spans)
            && parts == spans.map_values(|s: (u16, u16)| span_rect(direction, area, s))
}

/// The areas of the parts with the given starts and lengths along the
/// direction, each spanning the whole area across it.
pub fn spans_to_areas(direction: Direction, area: Rect, spans: &Vec<(u16, u16)>) -> (r: Vec<Rect>)
    ensures
        r@ == spans@.map_values(|s: (u16, u16)| span_rect(direction, area, s)),
{
    let ghost all = spans@.map_values(|s: (u16, u16)| span_rect(direction, area, s));
    let mut r: Vec<Rect> = Vec::new();
    let mut i: usize = 0;
    while i < spans.len()
        invariant
            i <= spans@.len(),
            all == spans@.map_values(|s: (u16, u16)| span_rect(direction, area, s)),
            r@ == all.take(i as int),
        decreases spans@.len() - i,
    {
        let (s, l) = spans[i];
        let part = match direction {
            Direction::Horizontal => Rect { x: s, y: area.y, width: l, height: area.height },
            Direction::Vertical => Rect { x: area.x, y: s, width: area.width, height: l },
        };
        r.push(part);
        assert(all.take(i + 1) =~= all.take(i as int).push(part));
        i = i + 1;
    }
    assert(all.take(i as int) =~= all);
    r
}

/// A layout: the direction to split in, the constraints for the parts,
/// the spacing between them and where excess space goes.
#[derive(Debug, Clone)]
pub struct Layout {
    pub direction: Direction,
    pub constraints: Vec<Constraint>,
    pub spacing: u16,
    pub flex: Flex,
}

impl Layout {
    /// Layout without spacing, excess space at the end.
    pub fn new(direction: Direction, constraints: Vec<Constraint>) -> (r: Self)
        ensures
            r.direction == direction,
            r.constraints@ == constraints@,
            r.spacing == 0,
            r.flex == Flex::Start,
    {
        Layout { direction, constraints, spacing: 0, flex: Flex::Start }
    }

    /// Horizontal layout without spacing, excess space at the end.
    pub fn horizontal(constraints: Vec<Constraint>) -> (r: Self)
        ensures
            r.direction == Direction::Horizontal,
            r.constraints@ == constraints@,
            r.spacing == 0,
            r.flex == Flex::Start,
    {
        Self::new(Direction::Horizontal, constraints)
    }

    /// Vertical layout without spacing, excess space at the end.
    pub fn vertical(constraints: Vec<Constraint>) -> (r: Self)
        ensures
            r.direction == Direction::Vertical,
            r.constraints@ == constraints@,
            r.spacing == 0,
            r.flex == Flex::Start,
    {
        Self::new(Direction::Vertical, constraints)
    }

    /// Spacing between the parts.
    pub fn spacing(self, spacing: u16) -> (r: Self)
        ensures
            r == (Layout { spacing, ..self }),
    {
        Layout { spacing, ..self }
    }

    /// Where excess space goes.
    pub fn flex(self, flex: Flex) -> (r: Self)
        ensures
            r == (Layout { flex, ..self }),
    {
        Layout { flex, ..self }
    }

    /// Splits the area: one part per constraint, each spanning the whole
    /// area across the direction.
    pub fn split(&self, area: Rect) -> (r: Vec<Rect>)
        ensures
            is_split(self.direction, area, self.constraints@.len() as int, r@),
            solver_split(self.direction, self.constraints@, self.spacing, self.flex, area, r@),
    {
        let (start, len) = match self.direction {
            Direction::Horizontal => (area.x, area.width),
            Direction::Vertical => (area.y, area.height),
        };
        let spans = solve(&self.constraints, self.spacing, self.flex, start, len);
        let r = spans_to_areas(self.direction, area, &spans);
        assert(start == along(self.direction, area).0 && len == along(self.direction, area).1);
        assert(solver_gives(
            self.constraints@,
            self.spacing,
            self.flex,
            along(self.direction, area).0,
            along(self.direction, area).1,
            spans@,
        ) && r@ == spans@.map_values(|s: (u16, u16)| span_rect(self.direction, area, s)));
        assert forall|i: int| 0 <= i < r@.len() implies along(self.direction, #[trigger] r@[i]) == spans@[i] by {}
        r
    }
}

} // verus!
