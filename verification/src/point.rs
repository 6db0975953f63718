//! The coordinate type, its arithmetic and the eight unit directions.

use core::ops::{Add, Mul, Sub};
use vstd::prelude::*;
use vstd::std_specs::ops::{AddSpecImpl, MulSpecImpl, SubSpecImpl};
use vstd::wrapping::isize_specs;

verus! {

/// A position or an offset in a grid: `x` is the column, `y` the row.
#[derive(Debug, PartialEq, Eq, Structural, Hash, Clone, Copy)]
pub struct Point {
    pub x: isize,
    pub y: isize,
}

/// One row up: `(0, -1)`.
#[verifier::allow_in_spec]
pub fn up() -> Point
    returns
        (Point { x: 0isize, y: -1isize }),
{
    Point { x: 0, y: -1 }
}

/// One row down: `(0, 1)`.
#[verifier::allow_in_spec]
pub fn down() -> Point
    returns
        (Point { x: 0isize, y: 1isize }),
{
    Point { x: 0, y: 1 }
}

/// One column to the left: `(-1, 0)`.
#[verifier::allow_in_spec]
pub fn left() -> Point
    returns
        (Point { x: -1isize, y: 0isize }),
{
    Point { x: -1, y: 0 }
}

/// One column to the right: `(1, 0)`.
#[verifier::allow_in_spec]
pub fn right() -> Point
    returns
        (Point { x: 1isize, y: 0isize }),
{
    Point { x: 1, y: 0 }
}

/// One row up and one column to the left: `(-1, -1)`.
#[verifier::allow_in_spec]
pub fn up_left() -> Point
    returns
        (Point { x: -1isize, y: -1isize }),
{
    Point { x: -1, y: -1 }
}

/// One row up and one column to the right: `(1, -1)`.
#[verifier::allow_in_spec]
pub fn up_right() -> Point
    returns
        (Point { x: 1isize, y: -1isize }),
{
    Point { x: 1, y: -1 }
}

/// One row down and one column to the left: `(-1, 1)`.
#[verifier::allow_in_spec]
pub fn down_left() -> Point
    returns
        (Point { x: -1isize, y: 1isize }),
{
    Point { x: -1, y: 1 }
}

/// One row down and one column to the right: `(1, 1)`.
#[verifier::allow_in_spec]
pub fn down_right() -> Point
    returns
        (Point { x: 1isize, y: 1isize }),
{
    Point { x: 1, y: 1 }
}

impl Point {
    /// The componentwise sum, each component wrapped into the signed range.
    pub open spec fn plus(self, other: Point) -> Point {
        Point {
            x: isize_specs::wrapping_add(self.x, other.x),
            y: isize_specs::wrapping_add(self.y, other.y),
        }
    }

    /// The componentwise difference, each component wrapped into the signed range.
    pub open spec fn minus(self, other: Point) -> Point {
        Point {
            x: isize_specs::wrapping_sub(self.x, other.x),
            y: isize_specs::wrapping_sub(self.y, other.y),
        }
    }

    /// Both components multiplied by `k`, each product wrapped into the signed range.
    pub open spec fn times(self, k: isize) -> Point {
        Point {
            x: isize_specs::wrapping_mul(self.x, k),
            y: isize_specs::wrapping_mul(self.y, k),
        }
    }

    /// A point from two lengths. Both must be representable as signed
    /// components: nothing is narrowed silently. `try_new` is the form that
    /// tests this and answers `None`.
    pub fn new(x: usize, y: usize) -> (p: Point)
        requires
            x <= isize::MAX,
            y <= isize::MAX,
        ensures
            p.x == x,
            p.y == y,
    {
        Point::try_new(x, y).unwrap()
    }

    /// A point from two lengths, or `None` when one of them exceeds the
    /// signed range.
    pub fn try_new(x: usize, y: usize) -> (r: Option<Point>)
        ensures
            r is Some <==> x <= isize::MAX && y <= isize::MAX,
            r is Some ==> r->Some_0.x == x && r->Some_0.y == y,
    {
        let max: usize = isize::MAX as usize;
        if x <= max && y <= max {
            Some(Point { x: x as isize, y: y as isize })
        } else {
            None
        }
    }

    /// A point from two signed components.
    pub fn new_isize(x: isize, y: isize) -> (p: Point)
        ensures
            p == (Point { x, y }),
    {
        Point { x, y }
    }
}

impl AddSpecImpl for Point {
    open spec fn obeys_add_spec() -> bool {
        true
    }

    open spec fn add_req(self, other: Point) -> bool {
        true
    }

    open spec fn add_spec(self, other: Point) -> Point {
        self.plus(other)
    }
}

impl Add for Point {
    type Output = Point;

    fn add(self, other: Point) -> (r: Point)
        ensures
            r == self.plus(other),
            fits(self.x + other.x) && fits(self.y + other.y) ==> r.x == self.x + other.x && r.y
                == self.y + other.y,
    {
        Point { x: self.x.wrapping_add(other.x), y: self.y.wrapping_add(other.y) }
    }
}

impl SubSpecImpl for Point {
    open spec fn obeys_sub_spec() -> bool {
        true
    }

    open spec fn sub_req(self, other: Point) -> bool {
        true
    }

    open spec fn sub_spec(self, other: Point) -> Point {
        self.minus(other)
    }
}

impl Sub for Point {
    type Output = Point;

    fn sub(self, other: Point) -> (r: Point)
        ensures
            r == self.minus(other),
            fits(self.x - other.x) && fits(self.y - other.y) ==> r.x == self.x - other.x && r.y
                == self.y - other.y,
    {
        Point::new_isize(self.x.wrapping_sub(other.x), self.y.wrapping_sub(other.y))
    }
}

impl MulSpecImpl<isize> for Point {
    open spec fn obeys_mul_spec() -> bool {
        true
    }

    open spec fn mul_req(self, k: isize) -> bool {
        true
    }

    open spec fn mul_spec(self, k: isize) -> Point {
        self.times(k)
    }
}

impl Mul<isize> for Point {
    type Output = Point;

    fn mul(self, k: isize) -> (r: Point)
        ensures
            r == self.times(k),
            fits(self.x * k) && fits(self.y * k) ==> r.x == self.x * k && r.y == self.y * k,
    {
        proof {
            if fits(self.x * k) && fits(self.y * k) {
                lemma_wrapping_mul_exact(self.x, k);
                lemma_wrapping_mul_exact(self.y, k);
            }
        }
        Point::new_isize(self.x.wrapping_mul(k), self.y.wrapping_mul(k))
    }
}

/// Whether the integer `v` is representable as a signed component.
pub open spec fn fits(v: int) -> bool {
    isize::MIN <= v <= isize::MAX
}

/// A product that fits the signed range is not changed by wrapping.
pub proof fn lemma_wrapping_mul_exact(x: isize, k: isize)
    requires
        fits(x * k),
    ensures
        isize_specs::wrapping_mul(x, k) == x * k,
{
    let v: int = x * k;
    let range: int = usize::MAX - usize::MIN + 1;
    if v >= 0 {
        vstd::arithmetic::div_mod::lemma_small_mod(v as nat, range as nat);
    } else {
        vstd::arithmetic::div_mod::lemma_mod_add_multiples_vanish(v, range);
        vstd::arithmetic::div_mod::lemma_small_mod((v + range) as nat, range as nat);
    }
}

/// Subtracting what was added gives the first point back, wrapped or not.
pub proof fn law_add_then_sub(a: Point, b: Point)
    ensures
        a.plus(b).minus(b) == a,
{
}

/// Scaling by zero gives the origin; scaling by one changes nothing.
pub proof fn law_scale_zero_one(a: Point)
    ensures
        a.times(0) == (Point { x: 0, y: 0 }),
        a.times(1) == a,
{
    lemma_wrapping_mul_exact(a.x, 0);
    lemma_wrapping_mul_exact(a.y, 0);
    lemma_wrapping_mul_exact(a.x, 1);
    lemma_wrapping_mul_exact(a.y, 1);
}

/// The eight unit directions: every offset of at most one column and one
/// row, but the origin.
pub open spec fn is_direction(d: Point) -> bool {
    &&& -1 <= d.x <= 1
    &&& -1 <= d.y <= 1
    &&& !(d.x == 0 && d.y == 0)
}

/// The named directions are unit directions, and every unit direction is
/// one of them.
pub proof fn law_directions_named(d: Point)
    ensures
        is_direction(d) <==> d == up() || d == down() || d == left() || d == right() || d
            == up_left() || d == up_right() || d == down_left() || d == down_right(),
{
}

/// Adding a direction moves a point by that direction's offset, to one of
/// its eight neighbours, wherever that neighbour is representable.
pub proof fn law_direction_step(a: Point, d: Point)
    requires
        is_direction(d),
        fits(a.x + d.x),
        fits(a.y + d.y),
    ensures
        a.plus(d).x == a.x + d.x,
        a.plus(d).y == a.y + d.y,
        a.plus(d) != a,
{
}

} // verus!
