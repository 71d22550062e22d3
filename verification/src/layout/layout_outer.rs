//!
//! Constrains an area from its outside.
//!
use crate::geometry::{Constraint, Direction, Flex, Padding, Position, Rect, Size};
use crate::layout::generic_layout::GenericLayout;
use crate::layout::layout_dialog::{is_dialog_layout, is_dialog_split, layout_dialog, DialogItem};
use crate::layout::solver::Layout;
use crate::layout::layout_middle::is_middle_part;
use vstd::prelude::*;

verus! {

/// This lets you define the outer bounds of a target area.
///
/// The constraints are applied in this order.
///
/// * Constrain the left/right/top/bottom border outside the area.
/// * Set a fixed position.
/// * Constrain the width/height of the area.
/// * Set a fixed size.
///
/// In the end it gives you the middle Rect.
///
#[derive(Debug, Clone, Copy, PartialEq, Eq, Structural)]
pub struct LayoutOuter {
    pub left: Option<Constraint>,
    pub top: Option<Constraint>,
    pub right: Option<Constraint>,
    pub bottom: Option<Constraint>,
    pub position: Option<Position>,
    pub width: Option<Constraint>,
    pub height: Option<Constraint>,
    pub size: Option<Size>,
}

/// The value, or `d` without one.
pub open spec fn or_default(c: Option<Constraint>, d: Constraint) -> Constraint {
    match c {
        Some(v) => v,
        None => d,
    }
}

/// The three horizontal constraints: margin, area, margin.
pub open spec fn outer_horizontal(o: LayoutOuter) -> Seq<Constraint> {
    let first = match o.position {
        Some(p) => Constraint::Length(p.x),
        None => or_default(o.left, Constraint::Length(0)),
    };
    let middle = match o.size {
        Some(s) => Constraint::Length(s.width),
        None => or_default(o.width, Constraint::Fill(1)),
    };
    let last = if o.size is Some || o.width is Some {
        Constraint::Fill(1)
    } else {
        or_default(o.right, Constraint::Length(0))
    };
    seq![first, middle, last]
}

/// The three vertical constraints: margin, area, margin.
pub open spec fn outer_vertical(o: LayoutOuter) -> Seq<Constraint> {
    let first = match o.position {
        Some(p) => Constraint::Length(p.y),
        None => or_default(o.top, Constraint::Length(0)),
    };
    let middle = match o.size {
        Some(s) => Constraint::Length(s.height),
        None => or_default(o.height, Constraint::Fill(1)),
    };
    let last = if o.size is Some || o.height is Some {
        Constraint::Fill(1)
    } else {
        or_default(o.bottom, Constraint::Length(0))
    };
    seq![first, middle, last]
}

impl Default for LayoutOuter {
    fn default() -> (r: Self)
        ensures
            r == (LayoutOuter {
                left: None,
                top: None,
                right: None,
                bottom: None,
                position: None,
                width: None,
                height: None,
                size: None,
            }),
    {
        LayoutOuter {
            left: None,
            top: None,
            right: None,
            bottom: None,
            position: None,
            width: None,
            height: None,
            size: None,
        }
    }
}

impl LayoutOuter {
    /// Without any constraints.
    pub fn new() -> (r: Self)
        ensures
            r == (LayoutOuter {
                left: None,
                top: None,
                right: None,
                bottom: None,
                position: None,
                width: None,
                height: None,
                size: None,
            }),
    {
        Self::default()
    }

    /// Margin constraint for the left side.
    pub fn left(self, left: Constraint) -> (r: Self)
        ensures
            r == (LayoutOuter { left: Some(left), ..self }),
    {
        LayoutOuter { left: Some(left), ..self }
    }

    /// Margin constraint for the top side.
    pub fn top(self, top: Constraint) -> (r: Self)
        ensures
            r == (LayoutOuter { top: Some(top), ..self }),
    {
        LayoutOuter { top: Some(top), ..self }
    }

    /// Margin constraint for the right side.
    pub fn right(self, right: Constraint) -> (r: Self)
        ensures
            r == (LayoutOuter { right: Some(right), ..self }),
    {
        LayoutOuter { right: Some(right), ..self }
    }

    /// Margin constraint for the bottom side.
    pub fn bottom(self, bottom: Constraint) -> (r: Self)
        ensures
            r == (LayoutOuter { bottom: Some(bottom), ..self }),
    {
        LayoutOuter { bottom: Some(bottom), ..self }
    }

    /// Put at a fixed position.
    pub fn position(self, pos: Position) -> (r: Self)
        ensures
            r == (LayoutOuter { position: Some(pos), ..self }),
    {
        LayoutOuter { position: Some(pos), ..self }
    }

    /// Constraint for the width.
    pub fn width(self, width: Constraint) -> (r: Self)
        ensures
            r == (LayoutOuter { width: Some(width), ..self }),
    {
        LayoutOuter { width: Some(width), ..self }
    }

    /// Constraint for the height.
    pub fn height(self, height: Constraint) -> (r: Self)
        ensures
            r == (LayoutOuter { height: Some(height), ..self }),
    {
        LayoutOuter { height: Some(height), ..self }
    }

    /// Set at a fixed size.
    pub fn size(self, size: Size) -> (r: Self)
        ensures
            r == (LayoutOuter { size: Some(size), ..self }),
    {
        LayoutOuter { size: Some(size), ..self }
    }

    /// The horizontal and the vertical constraints, each as margin, area,
    /// margin.
    pub fn constraints(&self) -> (r: (Vec<Constraint>, Vec<Constraint>))
        ensures
            r.0@ == outer_horizontal(*self),
            r.1@ == outer_vertical(*self),
    {
        let mut hor = vec![Constraint::Length(0), Constraint::Fill(1), Constraint::Length(0)];
        let mut ver = vec![Constraint::Length(0), Constraint::Fill(1), Constraint::Length(0)];
        if let Some(left) = self.left {
            hor.set(0, left);
        }
        if let Some(top) = self.top {
            ver.set(0, top);
        }
        if let Some(right) = self.right {
            hor.set(2, right);
        }
        if let Some(bottom) = self.bottom {
            ver.set(2, bottom);
        }
        if let Some(pos) = self.position {
            ver.set(0, Constraint::Length(pos.y));
            hor.set(0, Constraint::Length(pos.x));
        }
        if let Some(width) = self.width {
            hor.set(1, width);
            hor.set(2, Constraint::Fill(1));
        }
        if let Some(height) = self.height {
            ver.set(1, height);
            ver.set(2, Constraint::Fill(1));
        }
        if let Some(size) = self.size {
            ver.set(1, Constraint::Length(size.height));
            ver.set(2, Constraint::Fill(1));
            hor.set(1, Constraint::Length(size.width));
            hor.set(2, Constraint::Fill(1));
        }
        assert(hor@ =~= outer_horizontal(*self));
        assert(ver@ =~= outer_vertical(*self));
        (hor, ver)
    }

    /// Calculate the area: the solver splits the area horizontally by the
    /// horizontal constraints, and its middle part vertically by the
    /// vertical ones.
    pub fn layout(&self, area: Rect) -> (r: Rect)
        ensures
            exists|h: Seq<Rect>, v: Seq<Rect>|
                #[trigger] is_middle_part(area, outer_horizontal(*self), outer_vertical(*self), h, v, r),
    {
        let (hor, ver) = self.constraints();
        let h_layout = Layout::horizontal(hor).split(area);
        let v_layout = Layout::vertical(ver).split(h_layout[1]);
        assert(is_middle_part(area, outer_horizontal(*self), outer_vertical(*self), h_layout@, v_layout@, v_layout[1]));
        v_layout[1]
    }

    /// Create a dialog layout with the given constraints inside the area
    /// of this layout.
    ///
    /// `None` where the padding doesn't fit to the right of or below that
    /// area's position, or the paddings on both sides add up to more than
    /// the coordinates can hold.
    pub fn layout_dialog(
        &self,
        area: Rect,
        padding: Padding,
        buttons: Vec<Constraint>,
        button_spacing: u16,
        button_flex: Flex,
    ) -> (r: Option<GenericLayout<DialogItem, ()>>)
        ensures
            exists|h: Seq<Rect>, v: Seq<Rect>, inner: Rect|
                #[trigger] is_middle_part(area, outer_horizontal(*self), outer_vertical(*self), h, v, inner)
                    && outer_dialog(inner, padding, buttons@, button_spacing, button_flex, r),
    {
        let inner = self.layout(area);
        let ghost (h, v) = choose|h: Seq<Rect>, v: Seq<Rect>|
            is_middle_part(area, outer_horizontal(*self), outer_vertical(*self), h, v, inner);
        assert(is_middle_part(area, outer_horizontal(*self), outer_vertical(*self), h, v, inner));
        let ghost bc = buttons@;
        if inner.x as u32 + padding.left as u32 <= u16::MAX as u32 && inner.y as u32 + padding.top as u32
            <= u16::MAX as u32 && padding.left as u32 + padding.right as u32 <= u16::MAX as u32
            && padding.top as u32 + padding.bottom as u32 <= u16::MAX as u32 {
            let l = layout_dialog(inner, padding, buttons, button_spacing, button_flex);
            let ghost (rows, parts) = choose|rows: Seq<Rect>, parts: Seq<Rect>|
                is_dialog_split(inner, padding, bc, button_spacing, button_flex, rows, parts)
                    && is_dialog_layout(l, inner, padding, rows, parts);
            assert(is_dialog_split(inner, padding, bc, button_spacing, button_flex, rows, parts));
            assert(is_dialog_layout(Some(l)->0, inner, padding, rows, parts));
            assert(outer_dialog(inner, padding, bc, button_spacing, button_flex, Some(l)));
            Some(l)
        } else {
            assert(outer_dialog(inner, padding, bc, button_spacing, button_flex, None));
            None
        }
    }
}

/// `r` is the dialog layout in `inner`, with the padding inside its border
/// and the buttons laid out by their constraints, the spacing and the flex,
/// split as the solver does it; or `None`, where
/// the padding doesn't fit the coordinates of `inner`.
pub open spec fn outer_dialog(
    inner: Rect,
    padding: Padding,
    buttons: Seq<Constraint>,
    spacing: u16,
    flex: Flex,
    r: Option<GenericLayout<DialogItem, ()>>,
) -> bool {
    let fits = inner.x + padding.left <= u16::MAX && inner.y + padding.top <= u16::MAX
        && padding.left + padding.right <= u16::MAX && padding.top + padding.bottom <= u16::MAX;
    &&& (r is Some <==> fits)
    &&& r is Some ==> exists|rows: Seq<Rect>, parts: Seq<Rect>|
        is_dialog_split(inner, padding, buttons, spacing, flex, rows, parts) && #[trigger] is_dialog_layout(r->0, inner, padding, rows, parts)
}

} // verus!
