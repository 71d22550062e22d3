//!
//! Grids of areas from a horizontal and a vertical layout.
//!
use crate::geometry::{Constraint, Direction, Flex, Rect, Size};
use crate::layout::generic_layout::GenericLayout;
use crate::layout::solver::{is_split, solver_split, Layout};
use vstd::prelude::*;

verus! {

/// The cell of column `x` and row `y`.
pub open spec fn grid_cell(columns: Seq<Rect>, rows: Seq<Rect>, x: int, y: int) -> Rect {
    Rect::spec_new(columns[x].x, rows[y].y, columns[x].width, rows[y].height)
}

/// `cols` and `rows` are the columns and rows of a grid in the area: the
/// solver's splits of its width by the horizontal layout and of its height
/// by the vertical one, each in the direction of its layout.
pub open spec fn is_grid_split(area: Rect, horizontal: Layout, vertical: Layout, cols: Seq<Rect>, rows: Seq<Rect>) -> bool {
    &&& is_split(horizontal.direction, Rect::spec_new(area.x, 0, area.width, 0), horizontal.constraints@.len() as int, cols)
    &&& solver_split(
        horizontal.direction,
        horizontal.constraints@,
        horizontal.spacing,
        horizontal.flex,
        Rect::spec_new(area.x, 0, area.width, 0),
        cols,
    )
    &&& is_split(vertical.direction, Rect::spec_new(0, area.y, 0, area.height), vertical.constraints@.len() as int, rows)
    &&& solver_split(
        vertical.direction,
        vertical.constraints@,
        vertical.spacing,
        vertical.flex,
        Rect::spec_new(0, area.y, 0, area.height),
        rows,
    )
}

/// `r` is the grid layout of the area with the columns `cols` and the
/// rows `rows`: one cell for each column and row, column by column, keyed
/// by column and row, without labels or blocks, on one page of the
/// area's size.
pub open spec fn is_grid_layout(r: GenericLayout<(usize, usize), ()>, area: Rect, cols: Seq<Rect>, rows: Seq<Rect>) -> bool {
    let n = cols.len() * rows.len();
    &&& r.wf()
    &&& r.area_view() == area
    &&& r.page_size_view() == (Size { width: area.width, height: area.height })
    &&& r.page_count_view() == 1
    &&& r.keys().len() == n
    &&& forall|i: int|
        0 <= i < n ==> cloned(
            ((grid_pos(i, rows.len() as int).0) as usize, (grid_pos(i, rows.len() as int).1) as usize),
            #[trigger] r.keys()[i],
        )
    &&& r.widget_areas() == Seq::new(
        n as nat,
        |i: int| grid_cell(cols, rows, grid_pos(i, rows.len() as int).0, grid_pos(i, rows.len() as int).1),
    )
    &&& r.labels() == Seq::new(n as nat, |i: int| None::<String>)
    &&& r.label_areas() == Seq::new(n as nat, |i: int| Rect::zero())
    &&& r.block_areas() == Seq::<Rect>::empty()
    &&& r.blocks() == Seq::<Option<()>>::empty()
}

/// Column and row of the `i`-th cell, when the grid has `rows` rows:
/// the cells go column by column.
pub open spec fn grid_pos(i: int, rows: int) -> (int, int) {
    (i / rows, i % rows)
}

/// Position `y` in column `x` is the cell `x * rows + y`.
proof fn lemma_grid_pos(x: int, y: int, rows: int)
    requires
        0 <= x,
        0 <= y < rows,
    ensures
        grid_pos(x * rows + y, rows) == (x, y),
        x * rows + y < (x + 1) * rows,
{
    assert((x * rows + y) / rows == x && (x * rows + y) % rows == y) by (nonlinear_arith)
        requires
            0 <= x,
            0 <= y < rows,
    ;
    assert(x * rows + y < (x + 1) * rows) by (nonlinear_arith)
        requires
            y < rows,
    ;
}

///
/// Calculates a full grid of rects from the horizontal and vertical components.
///
/// The cells go column by column: the key `(x, y)` names column `x`, row `y`.
pub fn layout_as_grid(area: Rect, horizontal: Layout, vertical: Layout) -> (r: GenericLayout<
    (usize, usize),
    (),
>)
    ensures
        exists|cols: Seq<Rect>, rows: Seq<Rect>|
            is_grid_split(area, horizontal, vertical, cols, rows) && #[trigger] is_grid_layout(r, area, cols, rows),
{
    let hori = horizontal.split(Rect::new(area.x, 0, area.width, 0));
    let vert = vertical.split(Rect::new(0, area.y, 0, area.height));
    let r = grid_from_parts(area, &hori, &vert);
    assert(is_grid_split(area, horizontal, vertical, hori@, vert@));
    r
}

/// The grid layout of the area with the given columns and rows: one cell
/// for each column and row, column by column.
pub fn grid_from_parts(area: Rect, hori: &Vec<Rect>, vert: &Vec<Rect>) -> (r: GenericLayout<(usize, usize), ()>)
    ensures
        is_grid_layout(r, area, hori@, vert@),
{
    let mut gen_layout: GenericLayout<(usize, usize), ()> = GenericLayout::new();
    gen_layout.set_area(area);
    gen_layout.set_page_size(Size { width: area.width, height: area.height });

    let ghost cols = hori@;
    let ghost rows = vert@;
    let ghost nr = rows.len() as int;
    let z = Rect { x: 0, y: 0, width: 0, height: 0 };

    let mut x: usize = 0;
    while x < hori.len()
        invariant
            x <= cols.len(),
            cols == hori@,
            rows == vert@,
            nr == rows.len(),
            z == Rect::zero(),
            gen_layout.wf(),
            gen_layout.area_view() == area,
            gen_layout.page_size_view() == (Size { width: area.width, height: area.height }),
            gen_layout.page_count_view() == 1,
            gen_layout.keys().len() == x * nr,
            forall|i: int|
                0 <= i < x * nr ==> cloned(
                    ((grid_pos(i, nr).0) as usize, (grid_pos(i, nr).1) as usize),
                    #[trigger] gen_layout.keys()[i],
                ),
            gen_layout.widget_areas() == Seq::new(
                (x * nr) as nat,
                |i: int| grid_cell(cols, rows, grid_pos(i, nr).0, grid_pos(i, nr).1),
            ),
            gen_layout.labels() == Seq::new((x * nr) as nat, |i: int| None::<String>),
            gen_layout.label_areas() == Seq::new((x * nr) as nat, |i: int| Rect::zero()),
            gen_layout.block_areas() == Seq::<Rect>::empty(),
            gen_layout.blocks() == Seq::<Option<()>>::empty(),
        decreases cols.len() - x,
    {
        let mut y: usize = 0;
        while y < vert.len()
            invariant
                x < cols.len(),
                y <= rows.len(),
                cols == hori@,
                rows == vert@,
                nr == rows.len(),
                z == Rect::zero(),
                gen_layout.wf(),
                gen_layout.area_view() == area,
                gen_layout.page_size_view() == (Size { width: area.width, height: area.height }),
                gen_layout.page_count_view() == 1,
                gen_layout.keys().len() == x * nr + y,
                forall|i: int|
                    0 <= i < x * nr + y ==> cloned(
                        ((grid_pos(i, nr).0) as usize, (grid_pos(i, nr).1) as usize),
                        #[trigger] gen_layout.keys()[i],
                    ),
                gen_layout.widget_areas() == Seq::new(
                    (x * nr + y) as nat,
                    |i: int| grid_cell(cols, rows, grid_pos(i, nr).0, grid_pos(i, nr).1),
                ),
                gen_layout.labels() == Seq::new((x * nr + y) as nat, |i: int| None::<String>),
                gen_layout.label_areas() == Seq::new((x * nr + y) as nat, |i: int| Rect::zero()),
                gen_layout.block_areas() == Seq::<Rect>::empty(),
                gen_layout.blocks() == Seq::<Option<()>>::empty(),
            decreases rows.len() - y,
        {
            let cell = Rect::new(hori[x].x, vert[y].y, hori[x].width, vert[y].height);
            let ghost before = gen_layout.keys();
            proof {
                lemma_grid_pos(x as int, y as int, nr);
            }
            gen_layout.add((x, y), cell, None, z);
            let ghost k = x * nr + y;
            assert forall|i: int| 0 <= i < k + 1 implies cloned(
                ((grid_pos(i, nr).0) as usize, (grid_pos(i, nr).1) as usize),
                #[trigger] gen_layout.keys()[i],
            ) by {
                if i < k {
                    assert(gen_layout.keys()[i] == gen_layout.keys().drop_last()[i]);
                    assert(before[i] == gen_layout.keys()[i]);
                }
            }
            assert(gen_layout.widget_areas() =~= Seq::new(
                (k + 1) as nat,
                |i: int| grid_cell(cols, rows, grid_pos(i, nr).0, grid_pos(i, nr).1),
            ));
            assert(gen_layout.labels() =~= Seq::new((k + 1) as nat, |i: int| None::<String>));
            assert(gen_layout.label_areas() =~= Seq::new((k + 1) as nat, |i: int| Rect::zero()));
            y = y + 1;
        }
        assert((x + 1) * nr == x * nr + nr) by (nonlinear_arith);
        x = x + 1;
    }
    gen_layout
}

/// Create a basic grid of areas using the given Constraints.
///
/// `r[x][y]` is the cell of column `x` and row `y`.
pub fn simple_grid(area: Rect, horizontal: Vec<Constraint>, vertical: Vec<Constraint>) -> (r: Vec<
    Vec<Rect>,
>)
    ensures
        exists|cols: Seq<Rect>, rows: Seq<Rect>|
            #![trigger is_split(Direction::Horizontal, Rect::spec_new(area.x, 0, area.width, 0), horizontal@.len() as int, cols),
                is_split(Direction::Vertical, Rect::spec_new(0, area.y, 0, area.height), vertical@.len() as int, rows)]
            {
            &&& is_split(Direction::Horizontal, Rect::spec_new(area.x, 0, area.width, 0), horizontal@.len() as int, cols)
            &&& solver_split(Direction::Horizontal, horizontal@, 0, Flex::Start, Rect::spec_new(area.x, 0, area.width, 0), cols)
            &&& is_split(Direction::Vertical, Rect::spec_new(0, area.y, 0, area.height), vertical@.len() as int, rows)
            &&& solver_split(Direction::Vertical, vertical@, 0, Flex::Start, Rect::spec_new(0, area.y, 0, area.height), rows)
            &&& r@.len() == cols.len()
            &&& forall|x: int|
                0 <= x < r@.len() ==> #[trigger] r@[x]@.len() == rows.len() && forall|y: int|
                    0 <= y < rows.len() ==> #[trigger] r@[x]@[y] == grid_cell(cols, rows, x, y)
        },
{
    let hl = Layout::horizontal(horizontal);
    let vl = Layout::vertical(vertical);
    let hori = hl.split(Rect::new(area.x, 0, area.width, 0));
    let vert = vl.split(Rect::new(0, area.y, 0, area.height));

    let mut layout: Vec<Vec<Rect>> = Vec::new();
    let mut x: usize = 0;
    while x < hori.len()
        invariant
            x <= hori@.len(),
            layout@.len() == x,
            forall|i: int|
                0 <= i < x ==> #[trigger] layout@[i]@.len() == vert@.len() && forall|y: int|
                    0 <= y < vert@.len() ==> #[trigger] layout@[i]@[y] == grid_cell(hori@, vert@, i, y),
        decreases hori@.len() - x,
    {
        let mut column: Vec<Rect> = Vec::new();
        let mut y: usize = 0;
        while y < vert.len()
            invariant
                x < hori@.len(),
                y <= vert@.len(),
                column@.len() == y,
                forall|j: int| 0 <= j < y ==> #[trigger] column@[j] == grid_cell(hori@, vert@, x as int, j),
            decreases vert@.len() - y,
        {
            column.push(Rect::new(hori[x].x, vert[y].y, hori[x].width, vert[y].height));
            y = y + 1;
        }
        layout.push(column);
        x = x + 1;
    }
    assert(is_split(Direction::Horizontal, Rect::spec_new(area.x, 0, area.width, 0), horizontal@.len() as int, hori@));
    assert(is_split(Direction::Vertical, Rect::spec_new(0, area.y, 0, area.height), vertical@.len() as int, vert@));
    layout
}

} // verus!
