//! Coordinate-addressed access to two-dimensional grids.
//!
//! A [`Point`] is a signed `(x, y)` pair, `x` the column and `y` the row.
//! Grids are either nested vectors, whose rows may differ in length, or
//! nested arrays. Every operation is stated over the grid's rows as a
//! sequence of sequences.

pub mod grid;
pub mod point;
pub mod traverse;

pub use grid::{Get, SetAt};
pub use point::{down, down_left, down_right, left, right, up, up_left, up_right, Point};
pub use traverse::{
    array_is_addressable, enumerate_iter_arr, enumerate_iter_vec, vec_is_addressable,
};
