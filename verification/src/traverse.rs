//! Row-major traversal of a grid, each cell paired with its coordinate.

use crate::grid::{array_rows, cell, in_bounds, vec_rows};
use crate::point::Point;
use vstd::prelude::*;

verus! {

/// The cells of row `y`, left to right, each with its coordinate.
pub open spec fn row_pairs<A>(row: Seq<A>, y: int) -> Seq<(Point, A)> {
    Seq::new(row.len(), |x: int| (Point { x: x as isize, y: y as isize }, row[x]))
}

/// Every cell of `rows` with its coordinate: the top row first, and each
/// row from left to right.
pub open spec fn traversal<A>(rows: Seq<Seq<A>>) -> Seq<(Point, A)>
    decreases rows.len(),
{
    if rows.len() == 0 {
        Seq::empty()
    } else {
        traversal(rows.drop_last()) + row_pairs(rows.last(), rows.len() - 1)
    }
}

/// Whether every row index and every column index of `rows` is a signed
/// component.
pub open spec fn addressable<A>(rows: Seq<Seq<A>>) -> bool {
    &&& rows.len() <= isize::MAX + 1
    &&& forall|y: int| 0 <= y < rows.len() ==> (#[trigger] rows[y]).len() <= isize::MAX + 1
}

/// The number of cells in the rows above row `y`.
pub open spec fn cells_above<A>(rows: Seq<Seq<A>>, y: int) -> int
    decreases y,
{
    if y <= 0 {
        0
    } else {
        cells_above(rows, y - 1) + rows[y - 1].len()
    }
}

/// Where the traversal reaches the cell that `p` names: after every cell of
/// the rows above and the cells to its left.
pub open spec fn position<A>(rows: Seq<Seq<A>>, p: Point) -> int {
    cells_above(rows, p.y as int) + p.x
}

/// Whether `p` comes before `q` in row-major order.
pub open spec fn row_major_before(p: Point, q: Point) -> bool {
    p.y < q.y || (p.y == q.y && p.x < q.x)
}

/// The items of an array, moved into a vector in the array's order.
fn array_items<T, const N: usize>(items: [T; N]) -> (v: Vec<T>)
    ensures
        v@ == items@,
{
    let boxed: Box<[T; N]> = Box::new(items);
    let slice: Box<[T]> = boxed;
    slice.into_vec()
}

/// The traversal of the first `y + 1` rows is that of the first `y` rows
/// followed by row `y`.
proof fn lemma_traversal_step<A>(rows: Seq<Seq<A>>, y: int)
    requires
        0 <= y < rows.len(),
    ensures
        traversal(rows.take(y + 1)) == traversal(rows.take(y)) + row_pairs(rows[y], y),
{
    assert(rows.take(y + 1).drop_last() =~= rows.take(y));
}

/// Appends the cells of row `y`, left to right, each with its coordinate.
fn push_row<A>(pairs: &mut Vec<(Point, A)>, row: Vec<A>, y: usize)
    requires
        y <= isize::MAX,
        row@.len() <= isize::MAX + 1,
    ensures
        final(pairs)@ == old(pairs)@ + row_pairs(row@, y as int),
{
    let ghost above = pairs@;
    let ghost cells = row@;
    let mut x: usize = 0;
    for item in inner: row.into_iter()
        invariant
            y <= isize::MAX,
            cells.len() <= isize::MAX + 1,
            inner.seq() == cells,
            x == inner.index(),
            pairs@ == above + row_pairs(cells, y as int).take(x as int),
    {
        pairs.push((Point::new(x, y), item));
        x += 1;
    }
}

/// Whether every cell of a grid of nested vectors has a coordinate: the
/// test that `enumerate_iter_vec` asks of its caller.
pub fn vec_is_addressable<A>(grid: &Vec<Vec<A>>) -> (b: bool)
    ensures
        b == addressable(vec_rows(grid)),
{
    let limit: usize = (isize::MAX as usize) + 1;
    if grid.len() > limit {
        return false;
    }
    let mut y: usize = 0;
    while y < grid.len()
        invariant
            limit == isize::MAX + 1,
            y <= grid.len(),
            forall|i: int| 0 <= i < y ==> (#[trigger] vec_rows(grid)[i]).len() <= limit,
        decreases grid.len() - y,
    {
        if grid[y].len() > limit {
            assert(vec_rows(grid)[y as int].len() > limit);
            return false;
        }
        y += 1;
    }
    true
}

/// Whether every cell of a grid of nested arrays has a coordinate: the
/// test that `enumerate_iter_arr` asks of its caller.
pub fn array_is_addressable<A, const INNER: usize, const OUTER: usize>(
    grid: &[[A; INNER]; OUTER],
) -> (b: bool)
    ensures
        b == addressable(array_rows(grid)),
{
    let limit: usize = (isize::MAX as usize) + 1;
    if OUTER > 0 {
        assert(array_rows(grid)[0].len() == INNER);
    }
    OUTER <= limit && (OUTER == 0 || INNER <= limit)
}

/// Every cell of a grid of nested vectors with its coordinate, in
/// row-major order. The grid is consumed. Each of its cells must have a
/// coordinate, which `vec_is_addressable` tests.
pub fn enumerate_iter_vec<A>(vec: Vec<Vec<A>>) -> (pairs: Vec<(Point, A)>)
    requires
        addressable(vec_rows(&vec)),
    ensures
        pairs@ == traversal(vec_rows(&vec)),
{
    let ghost rows = vec_rows(&vec);
    let mut pairs: Vec<(Point, A)> = Vec::new();
    let mut y: usize = 0;
    for row in outer: vec.into_iter()
        invariant
            rows == vec_rows(&vec),
            addressable(rows),
            outer.seq() == vec@,
            y == outer.index(),
            pairs@ == traversal(rows.take(y as int)),
    {
        proof {
            lemma_traversal_step(rows, y as int);
        }
        push_row(&mut pairs, row, y);
        y += 1;
    }
    assert(rows.take(y as int) =~= rows);
    pairs
}

/// Every cell of a grid of nested arrays with its coordinate, in row-major
/// order. The grid is consumed. Each of its cells must have a coordinate,
/// which `array_is_addressable` tests.
pub fn enumerate_iter_arr<A, const INNER: usize, const OUTER: usize>(
    arr: [[A; INNER]; OUTER],
) -> (pairs: Vec<(Point, A)>)
    requires
        addressable(array_rows(&arr)),
    ensures
        pairs@ == traversal(array_rows(&arr)),
{
    let ghost rows = array_rows(&arr);
    let mut pairs: Vec<(Point, A)> = Vec::new();
    let mut y: usize = 0;
    for row in outer: array_items(arr).into_iter()
        invariant
            rows == array_rows(&arr),
            addressable(rows),
            outer.seq() == arr@,
            y == outer.index(),
            pairs@ == traversal(rows.take(y as int)),
    {
        proof {
            lemma_traversal_step(rows, y as int);
        }
        push_row(&mut pairs, array_items(row), y);
        y += 1;
    }
    assert(rows.take(y as int) =~= rows);
    pairs
}

/// The count of cells above row `y` depends on the rows above `y` alone.
proof fn lemma_cells_above_prefix<A>(rows: Seq<Seq<A>>, other: Seq<Seq<A>>, y: int)
    requires
        0 <= y <= rows.len(),
        y <= other.len(),
        forall|i: int| 0 <= i < y ==> rows[i] == other[i],
    ensures
        cells_above(rows, y) == cells_above(other, y),
    decreases y,
{
    if y > 0 {
        lemma_cells_above_prefix(rows, other, y - 1);
    }
}

/// The cells above a row and the row itself all come above any later row.
proof fn lemma_cells_above_grows<A>(rows: Seq<Seq<A>>, y: int, later: int)
    requires
        0 <= y < later <= rows.len(),
    ensures
        cells_above(rows, y) + rows[y].len() <= cells_above(rows, later),
    decreases later,
{
    if y < later - 1 {
        lemma_cells_above_grows(rows, y, later - 1);
    }
}

/// The traversal has one entry for each cell.
pub proof fn law_traversal_len<A>(rows: Seq<Seq<A>>)
    ensures
        traversal(rows).len() == cells_above(rows, rows.len() as int),
    decreases rows.len(),
{
    if rows.len() > 0 {
        law_traversal_len(rows.drop_last());
        lemma_cells_above_prefix(rows, rows.drop_last(), rows.len() - 1);
    }
}

/// The traversal holds each cell at its position, paired with its own
/// coordinate.
pub proof fn law_traversal_cell<A>(rows: Seq<Seq<A>>, p: Point)
    requires
        in_bounds(rows, p),
    ensures
        0 <= position(rows, p) < traversal(rows).len(),
        traversal(rows)[position(rows, p)] == (p, cell(rows, p)),
    decreases rows.len(),
{
    let above = rows.drop_last();
    law_traversal_len(above);
    lemma_cells_above_prefix(rows, above, rows.len() - 1);
    if p.y < rows.len() - 1 {
        law_traversal_cell(above, p);
        lemma_cells_above_prefix(rows, above, p.y as int);
    }
}

/// Cells come out in row-major order: of two cells, the one in the higher
/// row comes first, and within a row the one further left.
pub proof fn law_traversal_order<A>(rows: Seq<Seq<A>>, p: Point, q: Point)
    requires
        in_bounds(rows, p),
        in_bounds(rows, q),
        row_major_before(p, q),
    ensures
        position(rows, p) < position(rows, q),
{
    if p.y < q.y {
        lemma_cells_above_grows(rows, p.y as int, q.y as int);
    }
}

/// Every entry of the traversal is a cell of the grid, at that cell's
/// position: with `law_traversal_cell`, each cell comes out exactly once.
pub proof fn law_traversal_complete<A>(rows: Seq<Seq<A>>, i: int)
    requires
        addressable(rows),
        0 <= i < traversal(rows).len(),
    ensures
        in_bounds(rows, traversal(rows)[i].0),
        position(rows, traversal(rows)[i].0) == i,
        traversal(rows)[i].1 == cell(rows, traversal(rows)[i].0),
    decreases rows.len(),
{
    let above = rows.drop_last();
    law_traversal_len(above);
    lemma_cells_above_prefix(rows, above, rows.len() - 1);
    if i < traversal(above).len() {
        law_traversal_complete(above, i);
        lemma_cells_above_prefix(rows, above, traversal(above)[i].0.y as int);
    }
}

} // verus!
