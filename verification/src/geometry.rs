//!
//! Plain geometry values used by the layout calculations.
//!
//! These mirror the terminal-cell geometry of the rendering backend:
//! all coordinates are `u16` cells, and an area never reaches past
//! `u16::MAX`.
//!
use vstd::prelude::*;

verus! {

/// Smaller of two u16 values.
pub open spec fn min_u16(a: u16, b: u16) -> u16 {
    if a <= b { a } else { b }
}

/// Larger of two u16 values.
pub open spec fn max_u16(a: u16, b: u16) -> u16 {
    if a >= b { a } else { b }
}

/// Saturating u16 addition.
pub open spec fn sat_add(a: u16, b: u16) -> u16 {
    if a + b > u16::MAX { u16::MAX } else { (a + b) as u16 }
}

/// Saturating u16 subtraction.
pub open spec fn sat_sub(a: u16, b: u16) -> u16 {
    if a >= b { (a - b) as u16 } else { 0 }
}

/// A rectangular area of terminal cells.
#[derive(Debug, Default, Clone, Copy, PartialEq, Eq, Hash, Structural)]
pub struct Rect {
    pub x: u16,
    pub y: u16,
    pub width: u16,
    pub height: u16,
}

/// A width/height pair.
#[derive(Debug, Default, Clone, Copy, PartialEq, Eq, Hash, Structural)]
pub struct Size {
    pub width: u16,
    pub height: u16,
}

/// A cell position.
#[derive(Debug, Default, Clone, Copy, PartialEq, Eq, Hash, Structural)]
pub struct Position {
    pub x: u16,
    pub y: u16,
}

/// Space around the inside of a border.
#[derive(Debug, Default, Clone, Copy, PartialEq, Eq, Hash, Structural)]
pub struct Padding {
    pub left: u16,
    pub right: u16,
    pub top: u16,
    pub bottom: u16,
}

/// How excess space is distributed by a layout.
#[derive(Debug, Default, Clone, Copy, PartialEq, Eq, Hash, Structural)]
pub enum Flex {
    Legacy,
    #[default]
    Start,
    End,
    Center,
    SpaceBetween,
    SpaceEvenly,
    SpaceAround,
}

/// A constraint on the length of an area that a layout splits off.
#[derive(Debug, Clone, Copy, PartialEq, Eq, Hash, Structural)]
pub enum Constraint {
    /// At least this length.
    Min(u16),
    /// At most this length.
    Max(u16),
    /// Exactly this length.
    Length(u16),
    /// This percentage of the length.
    Percentage(u16),
    /// This ratio of the length.
    Ratio(u32, u32),
    /// A share of the excess length, by this weight.
    Fill(u16),
}

/// Layout direction.
#[derive(Debug, Default, Clone, Copy, PartialEq, Eq, Hash, Structural)]
pub enum Direction {
    Horizontal,
    #[default]
    Vertical,
}

impl Rect {
    /// The rectangle `Rect::new` builds: width and height are cut so
    /// that the area ends at `u16::MAX` at the latest.
    pub open spec fn spec_new(x: u16, y: u16, width: u16, height: u16) -> Rect {
        Rect {
            x,
            y,
            width: (sat_add(x, width) - x) as u16,
            height: (sat_add(y, height) - y) as u16,
        }
    }

    /// New rectangle, clipped so that it ends at `u16::MAX` at the latest.
    pub fn new(x: u16, y: u16, width: u16, height: u16) -> (r: Rect)
        ensures
            r == Rect::spec_new(x, y, width, height),
            r.x + r.width <= u16::MAX,
            r.y + r.height <= u16::MAX,
    {
        Rect { x, y, width: x.saturating_add(width) - x, height: y.saturating_add(height) - y }
    }

    /// The all-zero rectangle.
    pub open spec fn zero() -> Rect {
        Rect { x: 0, y: 0, width: 0, height: 0 }
    }

    /// First row below the rectangle, clamped to `u16::MAX`.
    pub open spec fn spec_bottom(self) -> u16 {
        sat_add(self.y, self.height)
    }

    /// First column right of the rectangle, clamped to `u16::MAX`.
    pub open spec fn spec_right(self) -> u16 {
        sat_add(self.x, self.width)
    }

    /// First row below the rectangle.
    pub fn bottom(&self) -> (r: u16)
        ensures
            r == self.spec_bottom(),
    {
        self.y.saturating_add(self.height)
    }

    /// First column right of the rectangle.
    pub fn right(&self) -> (r: u16)
        ensures
            r == self.spec_right(),
    {
        self.x.saturating_add(self.width)
    }

    /// No cells: zero width or zero height.
    pub open spec fn spec_is_empty(self) -> bool {
        self.width == 0 || self.height == 0
    }

    /// No cells: zero width or zero height.
    pub fn is_empty(&self) -> (r: bool)
        ensures
            r == self.spec_is_empty(),
    {
        self.width == 0 || self.height == 0
    }

    /// The rectangles overlap.
    pub open spec fn spec_intersects(self, other: Rect) -> bool {
        &&& self.x < other.spec_right()
        &&& self.spec_right() > other.x
        &&& self.y < other.spec_bottom()
        &&& self.spec_bottom() > other.y
    }

    /// The rectangles overlap.
    pub fn intersects(&self, other: Rect) -> (r: bool)
        ensures
            r == self.spec_intersects(other),
    {
        self.x < other.right() && self.right() > other.x && self.y < other.bottom()
            && self.bottom() > other.y
    }

    /// The smallest rectangle that holds both.
    pub open spec fn spec_union(self, other: Rect) -> Rect {
        let x1 = min_u16(self.x, other.x);
        let y1 = min_u16(self.y, other.y);
        let x2 = max_u16(self.spec_right(), other.spec_right());
        let y2 = max_u16(self.spec_bottom(), other.spec_bottom());
        Rect { x: x1, y: y1, width: sat_sub(x2, x1), height: sat_sub(y2, y1) }
    }

    /// The smallest rectangle that holds both.
    pub fn union(&self, other: Rect) -> (r: Rect)
        ensures
            r == self.spec_union(other),
    {
        let x1 = if self.x <= other.x { self.x } else { other.x };
        let y1 = if self.y <= other.y { self.y } else { other.y };
        let (r1, r2) = (self.right(), other.right());
        let (b1, b2) = (self.bottom(), other.bottom());
        let x2 = if r1 >= r2 { r1 } else { r2 };
        let y2 = if b1 >= b2 { b1 } else { b2 };
        Rect { x: x1, y: y1, width: x2.saturating_sub(x1), height: y2.saturating_sub(y1) }
    }

    /// The overlap of both, without cells where they don't overlap.
    pub open spec fn spec_intersection(self, other: Rect) -> Rect {
        let x1 = max_u16(self.x, other.x);
        let y1 = max_u16(self.y, other.y);
        let x2 = min_u16(self.spec_right(), other.spec_right());
        let y2 = min_u16(self.spec_bottom(), other.spec_bottom());
        Rect { x: x1, y: y1, width: sat_sub(x2, x1), height: sat_sub(y2, y1) }
    }

    /// The overlap of both, without cells where they don't overlap.
    pub fn intersection(&self, other: Rect) -> (r: Rect)
        ensures
            r == self.spec_intersection(other),
    {
        let x1 = if self.x >= other.x { self.x } else { other.x };
        let y1 = if self.y >= other.y { self.y } else { other.y };
        let (r1, r2) = (self.right(), other.right());
        let (b1, b2) = (self.bottom(), other.bottom());
        let x2 = if r1 <= r2 { r1 } else { r2 };
        let y2 = if b1 <= b2 { b1 } else { b2 };
        Rect { x: x1, y: y1, width: x2.saturating_sub(x1), height: y2.saturating_sub(y1) }
    }

    /// The cell at column `x`, row `y` lies inside the rectangle.
    pub open spec fn spec_contains(self, x: u16, y: u16) -> bool {
        &&& self.x <= x < self.spec_right()
        &&& self.y <= y < self.spec_bottom()
    }

    /// The cell at the position lies inside the rectangle.
    pub fn contains(&self, p: Position) -> (r: bool)
        ensures
            r == self.spec_contains(p.x, p.y),
    {
        p.x >= self.x && p.x < self.right() && p.y >= self.y && p.y < self.bottom()
    }

    /// Size of the rectangle.
    pub fn as_size(&self) -> (r: Size)
        ensures
            r == (Size { width: self.width, height: self.height }),
    {
        Size { width: self.width, height: self.height }
    }

    /// Top-left corner of the rectangle.
    pub fn as_position(&self) -> (r: Position)
        ensures
            r == (Position { x: self.x, y: self.y }),
    {
        Position { x: self.x, y: self.y }
    }
}

impl Size {
    pub fn new(width: u16, height: u16) -> (r: Size)
        ensures
            r == (Size { width, height }),
    {
        Size { width, height }
    }
}

impl Position {
    pub fn new(x: u16, y: u16) -> (r: Position)
        ensures
            r == (Position { x, y }),
    {
        Position { x, y }
    }
}

impl Padding {
    /// Padding with the given left, right, top and bottom widths.
    pub fn new(left: u16, right: u16, top: u16, bottom: u16) -> (r: Padding)
        ensures
            r == (Padding { left, right, top, bottom }),
    {
        Padding { left, right, top, bottom }
    }
}

/// Index of the first of the areas that holds the cell at column `x`,
/// row `y`.
pub open spec fn first_at(areas: Seq<Rect>, x: u16, y: u16) -> Option<usize> {
    if exists|i: int| 0 <= i < areas.len() && #[trigger] areas[i].spec_contains(x, y) {
        let i = choose|i: int|
            0 <= i < areas.len() && #[trigger] areas[i].spec_contains(x, y) && forall|j: int|
                0 <= j < i ==> !#[trigger] areas[j].spec_contains(x, y);
        Some(i as usize)
    } else {
        None
    }
}

/// The areas from `i` on are the first ones to hold the cell.
proof fn lemma_first_at_is(areas: Seq<Rect>, x: u16, y: u16, i: int)
    requires
        0 <= i < areas.len(),
        areas.len() <= usize::MAX,
        areas[i].spec_contains(x, y),
        forall|j: int| 0 <= j < i ==> !#[trigger] areas[j].spec_contains(x, y),
    ensures
        first_at(areas, x, y) == Some(i as usize),
{
    let k = choose|k: int|
        0 <= k < areas.len() && #[trigger] areas[k].spec_contains(x, y) && forall|j: int|
            0 <= j < k ==> !#[trigger] areas[j].spec_contains(x, y);
    assert(0 <= k < areas.len() && areas[k].spec_contains(x, y) && forall|j: int|
        0 <= j < k ==> !#[trigger] areas[j].spec_contains(x, y));
    if k < i {
        assert(!areas[k].spec_contains(x, y));
    } else if i < k {
        assert(!areas[i].spec_contains(x, y));
    }
}

/// Index of the first area that holds the cell at column `x`, row `y`.
pub fn item_at(areas: &[Rect], x: u16, y: u16) -> (r: Option<usize>)
    ensures
        r == first_at(areas@, x, y),
        r matches Some(i) ==> i < areas@.len() && areas@[i as int].spec_contains(x, y),
{
    let mut i: usize = 0;
    while i < areas.len()
        invariant
            i <= areas@.len(),
            forall|j: int| 0 <= j < i ==> !#[trigger] areas@[j].spec_contains(x, y),
        decreases areas@.len() - i,
    {
        if areas[i].contains(Position { x, y }) {
            proof {
                lemma_first_at_is(areas@, x, y, i as int);
            }
            return Some(i);
        }
        i += 1;
    }
    assert(!exists|k: int| 0 <= k < areas@.len() && #[trigger] areas@[k].spec_contains(x, y));
    None
}

} // verus!
