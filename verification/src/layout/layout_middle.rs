//!
//! The middle of an area, inside margins given by constraints.
//!
use crate::geometry::{Constraint, Direction, Flex, Rect};
use crate::layout::solver::{is_split, solver_split, Layout};
use vstd::prelude::*;

verus! {

/// `r` is the middle of the area: the middle part `v[1]` of the solver's
/// vertical split `v` by the three constraints `ver` of the middle part
/// `h[1]` of its horizontal split `h` by the three constraints `hor`, both
/// without spacing and with excess space at the end.
pub open spec fn is_middle_part(
    area: Rect,
    hor: Seq<Constraint>,
    ver: Seq<Constraint>,
    h: Seq<Rect>,
    v: Seq<Rect>,
    r: Rect,
) -> bool {
    &&& is_split(Direction::Horizontal, area, 3, h)
    &&& solver_split(Direction::Horizontal, hor, 0, Flex::Start, area, h)
    &&& is_split(Direction::Vertical, h[1], 3, v)
    &&& solver_split(Direction::Vertical, ver, 0, Flex::Start, h[1], v)
    &&& r == v[1]
}

/// The constraints `first, Fill(1), last`: a middle part that takes what
/// the outer two leave.
pub open spec fn around(first: Constraint, last: Constraint) -> Seq<Constraint> {
    seq![first, Constraint::Fill(1), last]
}

///
/// Calculate the middle Rect inside a given area: the solver splits it by
/// `left, Fill(1), right` and the middle part by `top, Fill(1), bottom`.
///
pub fn layout_middle(
    area: Rect,
    left: Constraint,
    right: Constraint,
    top: Constraint,
    bottom: Constraint,
) -> (r: Rect)
    ensures
        exists|h: Seq<Rect>, v: Seq<Rect>|
            #[trigger] is_middle_part(
                area,
                around(left, right),
                around(top, bottom),
                h,
                v,
                r,
            ),
{
    let hor = vec![left, Constraint::Fill(1), right];
    let ver = vec![top, Constraint::Fill(1), bottom];
    assert(hor@ =~= around(left, right));
    assert(ver@ =~= around(top, bottom));
    let h_layout = Layout::horizontal(hor).split(area);
    let v_layout = Layout::vertical(ver).split(h_layout[1]);
    assert(is_middle_part(
        area,
        around(left, right),
        around(top, bottom),
        h_layout@,
        v_layout@,
        v_layout[1],
    ));
    v_layout[1]
}

} // verus!
