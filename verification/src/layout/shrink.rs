//!
//! Shrinking label and widget widths when there is not enough space.
//!
use vstd::prelude::*;

verus! {

/// Label, spacing and widget widths after taking `reduce` columns
/// away: first from the spacing, then from the label and the widget
/// down to 5 columns each, then from the label and the widget down to
/// nothing.
pub open spec fn shrink_spec(label: u16, spacing: u16, widget: u16, reduce: u16) -> (u16, u16, u16) {
    let (spacing, reduce) = if spacing > reduce {
        ((spacing - reduce) as u16, 0u16)
    } else {
        (0u16, (reduce - spacing) as u16)
    };
    let (label, reduce) = if label > 5 {
        if label - 5 > reduce {
            ((label - reduce) as u16, 0u16)
        } else {
            (5u16, (reduce - (label - 5)) as u16)
        }
    } else {
        (label, reduce)
    };
    let (widget, reduce) = if widget > 5 {
        if widget - 5 > reduce {
            ((widget - reduce) as u16, 0u16)
        } else {
            (5u16, (reduce - (widget - 5)) as u16)
        }
    } else {
        (widget, reduce)
    };
    let (label, reduce) = if label > reduce {
        ((label - reduce) as u16, 0u16)
    } else {
        (0u16, (reduce - label) as u16)
    };
    let widget = if widget > reduce { (widget - reduce) as u16 } else { 0u16 };
    (label, spacing, widget)
}

/// Take `reduce` columns away from spacing, label and widget.
pub fn shrink(label: u16, spacing: u16, widget: u16, reduce: u16) -> (r: (u16, u16, u16))
    ensures
        r == shrink_spec(label, spacing, widget, reduce),
        reduce <= label + spacing + widget ==> r.0 + r.1 + r.2 == label + spacing + widget - reduce,
{
    let mut reduce = reduce;
    let mut spacing = spacing;
    let mut label = label;
    let mut widget = widget;
    if spacing > reduce {
        spacing -= reduce;
        reduce = 0;
    } else {
        reduce -= spacing;
        spacing = 0;
    }
    if label > 5 {
        if label - 5 > reduce {
            label -= reduce;
            reduce = 0;
        } else {
            reduce -= label - 5;
            label = 5;
        }
    }
    if widget > 5 {
        if widget - 5 > reduce {
            widget -= reduce;
            reduce = 0;
        } else {
            reduce -= widget - 5;
            widget = 5;
        }
    }
    if label > reduce {
        label -= reduce;
        reduce = 0;
    } else {
        reduce -= label;
        label = 0;
    }
    if widget > reduce {
        widget -= reduce;
    } else {
        widget = 0;
    }
    (label, spacing, widget)
}

} // verus!
