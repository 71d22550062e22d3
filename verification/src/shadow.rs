//!
//! A shadow beside an area: the cells it styles.
//!
use crate::geometry::{sat_sub, Rect};
use vstd::prelude::*;

verus! {

/// Direction of the shadow.
#[derive(Debug, Default, Clone, Copy, PartialEq, Eq, Structural)]
pub enum ShadowDirection {
    #[default]
    BottomRight,
    BottomLeft,
    TopRight,
    TopLeft,
}

/// A line of cells: a fixed column or row, and the range `from..to`
/// along it.
#[derive(Debug, Clone, Copy, PartialEq, Eq, Structural)]
pub struct CellLine {
    pub at: u16,
    pub from: u16,
    pub to: u16,
}

/// The column and the row of cells the shadow of the area styles: a
/// column beside the area, shifted one row towards the shadow, and a row
/// above or below it, shifted one column; `None` where the shadow would
/// lie left of column 0 or above row 0.
pub open spec fn spec_shadow_lines(area: Rect, dir: ShadowDirection) -> (Option<CellLine>, Option<CellLine>) {
    let (left, top, right, bottom) = (area.x, area.y, area.spec_right(), area.spec_bottom());
    match dir {
        ShadowDirection::BottomRight => (
            Some(CellLine { at: right, from: (top + 1) as u16, to: (bottom + 1) as u16 }),
            Some(CellLine { at: bottom, from: (left + 1) as u16, to: right }),
        ),
        ShadowDirection::BottomLeft => (
            if left > 0 {
                Some(CellLine { at: (left - 1) as u16, from: (top + 1) as u16, to: (bottom + 1) as u16 })
            } else {
                None
            },
            Some(CellLine { at: bottom, from: left, to: sat_sub(right, 1) }),
        ),
        ShadowDirection::TopRight => (
            Some(CellLine { at: right, from: sat_sub(top, 1), to: sat_sub(bottom, 1) }),
            if top > 0 {
                Some(CellLine { at: (top - 1) as u16, from: (left + 1) as u16, to: right })
            } else {
                None
            },
        ),
        ShadowDirection::TopLeft => (
            if left > 0 {
                Some(CellLine { at: (left - 1) as u16, from: sat_sub(top, 1), to: sat_sub(bottom, 1) })
            } else {
                None
            },
            if top > 0 {
                Some(CellLine { at: (top - 1) as u16, from: left, to: sat_sub(right, 1) })
            } else {
                None
            },
        ),
    }
}

/// The column and the row of cells the shadow of the area styles, as
/// (column, row).
pub fn shadow_lines(area: Rect, dir: ShadowDirection) -> (r: (Option<CellLine>, Option<CellLine>))
    requires
        dir is BottomRight || dir is BottomLeft ==> area.spec_bottom() < u16::MAX,
        dir is BottomRight || dir is TopRight ==> area.x < u16::MAX,
    ensures
        r == spec_shadow_lines(area, dir),
{
    let left = area.x;
    let top = area.y;
    let right = area.right();
    let bottom = area.bottom();
    match dir {
        ShadowDirection::BottomRight => (
            Some(CellLine { at: right, from: top + 1, to: bottom + 1 }),
            Some(CellLine { at: bottom, from: left + 1, to: right }),
        ),
        ShadowDirection::BottomLeft => (
            if left > 0 {
                Some(CellLine { at: left - 1, from: top + 1, to: bottom + 1 })
            } else {
                None
            },
            Some(CellLine { at: bottom, from: left, to: right.saturating_sub(1) }),
        ),
        ShadowDirection::TopRight => (
            Some(CellLine { at: right, from: top.saturating_sub(1), to: bottom.saturating_sub(1) }),
            if top > 0 {
                Some(CellLine { at: top - 1, from: left + 1, to: right })
            } else {
                None
            },
        ),
        ShadowDirection::TopLeft => (
            if left > 0 {
                Some(
                    CellLine {
                        at: left - 1,
                        from: top.saturating_sub(1),
                        to: bottom.saturating_sub(1),
                    },
                )
            } else {
                None
            },
            if top > 0 {
                Some(CellLine { at: top - 1, from: left, to: right.saturating_sub(1) })
            } else {
                None
            },
        ),
    }
}

} // verus!
