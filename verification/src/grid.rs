//! Bounds-checked and indexed access to grid cells by coordinate.

use crate::point::Point;
use core::ops::{Index, IndexMut};
use vstd::prelude::*;

verus! {

/// Whether `p` names a cell of `rows`: both components are non-negative,
/// `p.y` is a row and `p.x` a column of that row.
pub open spec fn in_bounds<A>(rows: Seq<Seq<A>>, p: Point) -> bool {
    &&& 0 <= p.y < rows.len()
    &&& 0 <= p.x < rows[p.y as int].len()
}

/// The cell that `p` names: row `p.y`, column `p.x`.
pub open spec fn cell<A>(rows: Seq<Seq<A>>, p: Point) -> A
    recommends
        in_bounds(rows, p),
{
    rows[p.y as int][p.x as int]
}

/// `rows` with the cell that `p` names replaced by `value`.
pub open spec fn with_cell<A>(rows: Seq<Seq<A>>, p: Point, value: A) -> Seq<Seq<A>>
    recommends
        in_bounds(rows, p),
{
    rows.update(p.y as int, rows[p.y as int].update(p.x as int, value))
}

/// The rows of a grid of nested vectors.
pub open spec fn vec_rows<A>(grid: &Vec<Vec<A>>) -> Seq<Seq<A>> {
    Seq::new(grid@.len(), |y: int| grid@[y]@)
}

/// The rows of a grid of nested arrays.
pub open spec fn array_rows<A, const INNER: usize, const OUTER: usize>(
    grid: &[[A; INNER]; OUTER],
) -> Seq<Seq<A>> {
    Seq::new(grid@.len(), |y: int| grid@[y]@)
}

/// Read access by coordinate that answers `None` for every coordinate that
/// names no cell, negative ones included.
pub trait Get: Sized {
    type Output;

    /// The grid as rows of cells, top row first.
    spec fn rows(&self) -> Seq<Seq<Self::Output>>;

    /// The cell at `point`, or `None` where `point` names no cell.
    fn get_option(&self, point: Point) -> (r: Option<&Self::Output>)
        ensures
            in_bounds(self.rows(), point) ==> r == Some(&cell(self.rows(), point)),
            !in_bounds(self.rows(), point) ==> r is None,
            point.x < 0 || point.y < 0 ==> r is None,
    ;

    /// A handle on the cell at `point`, or `None` where `point` names no
    /// cell. What the caller writes through the handle is the only change
    /// to the grid.
    fn get_mut_option(&mut self, point: Point) -> (r: Option<&mut Self::Output>)
        ensures
            match r {
                Some(slot) => {
                    &&& in_bounds(old(self).rows(), point)
                    &&& *slot == cell(old(self).rows(), point)
                    &&& final(self).rows() == with_cell(old(self).rows(), point, *final(slot))
                },
                None => !in_bounds(old(self).rows(), point) && *final(self) == *old(self),
            },
            point.x < 0 || point.y < 0 ==> r is None,
    ;
}

/// Write access by coordinate that hands the displaced value back.
pub trait SetAt: Sized {
    type Output;

    /// The grid as rows of cells, top row first: for this library's grids
    /// the same rows as `Get::rows`.
    spec fn cells(&self) -> Seq<Seq<Self::Output>>;

    /// Puts `value` into the cell at `point` and returns what was there.
    /// Where `point` names no cell the grid stays as it is and the answer
    /// is `None`.
    ///
    /// Beside vstd's prelude, which has a `set` of its own for vectors and
    /// arrays, write the call as `SetAt::set(&mut grid, point, value)`.
    fn set(&mut self, point: Point, value: Self::Output) -> (r: Option<Self::Output>)
        ensures
            match r {
                Some(previous) => {
                    &&& in_bounds(old(self).cells(), point)
                    &&& previous == cell(old(self).cells(), point)
                    &&& final(self).cells() == with_cell(old(self).cells(), point, value)
                },
                None => !in_bounds(old(self).cells(), point) && *final(self) == *old(self),
            },
            point.x < 0 || point.y < 0 ==> r is None,
    ;
}

impl<A> vstd::std_specs::core::IndexSpecImpl<Point> for Vec<Vec<A>> {
    open spec fn index_req(&self, index: &Point) -> bool {
        in_bounds(vec_rows(self), *index)
    }
}

impl<A> Index<Point> for Vec<Vec<A>> {
    type Output = A;

    /// The cell at `index`, which must name one.
    fn index(&self, index: Point) -> (r: &A)
        ensures
            *r == cell(vec_rows(self), index),
    {
        let x: usize = index.x.try_into().unwrap();
        let y: usize = index.y.try_into().unwrap();
        &self[y][x]
    }
}

impl<A> IndexMut<Point> for Vec<Vec<A>> {
    /// A handle on the cell at `index`, which must name one.
    fn index_mut(&mut self, index: Point) -> (r: &mut A)
        requires
            in_bounds(vec_rows(old(self)), index),
        ensures
            *r == cell(vec_rows(old(self)), index),
            vec_rows(final(self)) == with_cell(vec_rows(old(self)), index, *final(r)),
    {
        let x: usize = index.x.try_into().unwrap();
        let y: usize = index.y.try_into().unwrap();
        &mut self[y][x]
    }
}

impl<A, const SIZE_OUTER: usize, const SIZE_INNER: usize> vstd::std_specs::core::IndexSpecImpl<
    Point,
> for [[A; SIZE_INNER]; SIZE_OUTER] {
    open spec fn index_req(&self, index: &Point) -> bool {
        in_bounds(array_rows(self), *index)
    }
}

impl<A, const SIZE_OUTER: usize, const SIZE_INNER: usize> Index<
    Point,
> for [[A; SIZE_INNER]; SIZE_OUTER] {
    type Output = A;

    /// The cell at `index`, which must name one.
    fn index(&self, index: Point) -> (r: &A)
        ensures
            *r == cell(array_rows(self), index),
    {
        let x: usize = index.x.try_into().unwrap();
        let y: usize = index.y.try_into().unwrap();
        &self[y][x]
    }
}

impl<A, const SIZE_OUTER: usize, const SIZE_INNER: usize> IndexMut<
    Point,
> for [[A; SIZE_INNER]; SIZE_OUTER] {
    /// A handle on the cell at `index`, which must name one.
    fn index_mut(&mut self, index: Point) -> (r: &mut A)
        requires
            in_bounds(array_rows(old(self)), index),
        ensures
            *r == cell(array_rows(old(self)), index),
            array_rows(final(self)) == with_cell(array_rows(old(self)), index, *final(r)),
    {
        let x: usize = index.x.try_into().unwrap();
        let y: usize = index.y.try_into().unwrap();
        &mut self[y][x]
    }
}

impl<A> Get for Vec<Vec<A>> {
    type Output = A;

    open spec fn rows(&self) -> Seq<Seq<A>> {
        vec_rows(self)
    }

    fn get_option(&self, point: Point) -> (r: Option<&A>) {
        let x: usize = point.x.try_into().ok()?;
        let y: usize = point.y.try_into().ok()?;
        if y < self.len() && x < self[y].len() {
            Some(&self[y][x])
        } else {
            None
        }
    }

    fn get_mut_option(&mut self, point: Point) -> (r: Option<&mut A>) {
        let x: usize = point.x.try_into().ok()?;
        let y: usize = point.y.try_into().ok()?;
        if y < self.len() && x < self[y].len() {
            Some(&mut self[y][x])
        } else {
            None
        }
    }
}

impl<A, const SIZE_INNER: usize, const SIZE_OUTER: usize> Get for [[A; SIZE_INNER]; SIZE_OUTER] {
    type Output = A;

    open spec fn rows(&self) -> Seq<Seq<A>> {
        array_rows(self)
    }

    fn get_option(&self, point: Point) -> (r: Option<&A>) {
        let x: usize = point.x.try_into().ok()?;
        let y: usize = point.y.try_into().ok()?;
        if y < SIZE_OUTER && x < SIZE_INNER {
            Some(&self[y][x])
        } else {
            None
        }
    }

    fn get_mut_option(&mut self, point: Point) -> (r: Option<&mut A>) {
        let x: usize = point.x.try_into().ok()?;
        let y: usize = point.y.try_into().ok()?;
        if y < SIZE_OUTER && x < SIZE_INNER {
            Some(&mut self[y][x])
        } else {
            None
        }
    }
}

impl<A> SetAt for Vec<Vec<A>> {
    type Output = A;

    open spec fn cells(&self) -> Seq<Seq<A>> {
        vec_rows(self)
    }

    fn set(&mut self, point: Point, value: A) -> (r: Option<A>) {
        let x: usize = point.x.try_into().ok()?;
        let y: usize = point.y.try_into().ok()?;
        if y < self.len() && x < self[y].len() {
            let mut displaced = value;
            core::mem::swap(&mut self[y][x], &mut displaced);
            Some(displaced)
        } else {
            None
        }
    }
}

impl<A, const SIZE_INNER: usize, const SIZE_OUTER: usize> SetAt for [[A; SIZE_INNER]; SIZE_OUTER] {
    type Output = A;

    open spec fn cells(&self) -> Seq<Seq<A>> {
        array_rows(self)
    }

    fn set(&mut self, point: Point, value: A) -> (r: Option<A>) {
        let x: usize = point.x.try_into().ok()?;
        let y: usize = point.y.try_into().ok()?;
        if y < SIZE_OUTER && x < SIZE_INNER {
            let mut displaced = value;
            core::mem::swap(&mut self[y][x], &mut displaced);
            Some(displaced)
        } else {
            None
        }
    }
}

/// A coordinate with a negative component names no cell, and neither does
/// one with a component at or beyond its extent: the row count for `y`, the
/// length of row `y` for `x`.
pub proof fn law_out_of_bounds<A>(rows: Seq<Seq<A>>, p: Point)
    ensures
        p.x < 0 || p.y < 0 ==> !in_bounds(rows, p),
        p.y >= rows.len() ==> !in_bounds(rows, p),
        0 <= p.y < rows.len() && p.x >= rows[p.y as int].len() ==> !in_bounds(rows, p),
{
}

/// On a coordinate that names a cell of a grid of nested vectors,
/// `get_option` answers with the cell that indexing by the coordinate gives.
pub proof fn law_get_option_matches_index_vec<A>(
    grid: &Vec<Vec<A>>,
    p: Point,
    got: Option<&A>,
    indexed: &A,
)
    requires
        in_bounds(vec_rows(grid), p),
        call_ensures(<Vec<Vec<A>> as Get>::get_option, (grid, p), got),
        call_ensures(<Vec<Vec<A>> as Index<Point>>::index, (grid, p), indexed),
    ensures
        got == Some(indexed),
{
}

/// On a coordinate that names a cell of a grid of nested arrays,
/// `get_option` answers with the cell that indexing by the coordinate gives.
pub proof fn law_get_option_matches_index_array<A, const INNER: usize, const OUTER: usize>(
    grid: &[[A; INNER]; OUTER],
    p: Point,
    got: Option<&A>,
    indexed: &A,
)
    requires
        in_bounds(array_rows(grid), p),
        call_ensures(<[[A; INNER]; OUTER] as Get>::get_option, (grid, p), got),
        call_ensures(<[[A; INNER]; OUTER] as Index<Point>>::index, (grid, p), indexed),
    ensures
        got == Some(indexed),
{
}

/// On a coordinate with a negative component, or with a component at or
/// beyond its extent, `get_option` answers `None`.
pub proof fn law_get_option_absent<G: Get>(grid: &G, p: Point, got: Option<&G::Output>)
    requires
        p.x < 0 || p.y < 0 || p.y >= grid.rows().len() || p.x >= grid.rows()[p.y as int].len(),
        call_ensures(G::get_option, (grid, p), got),
    ensures
        got is None,
{
}

/// Replacing a cell and reading it gives the new value, touches no other
/// cell and no extent, and putting the displaced value back restores the
/// rows.
pub proof fn law_replace_round_trip<A>(rows: Seq<Seq<A>>, p: Point, value: A)
    requires
        in_bounds(rows, p),
    ensures
        in_bounds(with_cell(rows, p, value), p),
        cell(with_cell(rows, p, value), p) == value,
        with_cell(with_cell(rows, p, value), p, cell(rows, p)) == rows,
        forall|q: Point|
            in_bounds(with_cell(rows, p, value), q) <==> #[trigger] in_bounds(rows, q),
        forall|q: Point|
            #[trigger] in_bounds(rows, q) && q != p ==> cell(with_cell(rows, p, value), q) == cell(
                rows,
                q,
            ),
{
    let replaced = with_cell(rows, p, value);
    let restored = with_cell(replaced, p, cell(rows, p));
    assert(restored[p.y as int] =~= rows[p.y as int]);
}

} // verus!
