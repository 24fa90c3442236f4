//! The row-major cell grid, kept in `ndarray::Array2`.  The array is read
//! and grown through a small set of trusted wrappers whose contracts speak
//! about `grid_seq`, the sequence of rows of cells the array holds, and
//! `grid_cols`, the column count it was shaped with.

use vstd::prelude::*;
use crate::data_value::DataValue;

verus! {

/// Holds the two-dimensional array.  Verus refuses a declaration of
/// `ndarray::ArrayBase` itself, because its generics carry a bound of
/// `ndarray`'s own `RawData` trait, so the array stays opaque behind this
/// holder and the wrappers below.
#[verifier::external_body]
pub struct Grid {
    cells: ndarray::Array2<DataValue>,
}

/// The rows of cells that the grid holds, in row order.
pub uninterp spec fn grid_seq(g: Grid) -> Seq<Seq<DataValue>>;

/// The column count the grid was shaped with, which every row has.
pub uninterp spec fn grid_cols(g: Grid) -> nat;

/// Relies on `ndarray::Array2::default`: builds a `rows` by `cols` array
/// with every element `Default::default()`, which for cells is the integer
/// zero.
#[verifier::external_body]
pub fn grid_new(rows: usize, cols: usize) -> (r: Grid)
    ensures
        grid_seq(r) == Seq::new(
            rows as nat,
            |i: int| Seq::new(cols as nat, |j: int| DataValue::I64(0)),
        ),
        grid_cols(r) == cols as nat,
{
    Grid { cells: ndarray::Array2::default((rows, cols)) }
}

/// Relies on `ndarray::Array2::nrows`: the number of rows.
#[verifier::external_body]
pub fn grid_nrows(g: &Grid) -> (r: usize)
    ensures
        r == grid_seq(*g).len(),
{
    g.cells.nrows()
}

/// Relies on `ndarray::Array2::ncols`: the number of columns.
#[verifier::external_body]
pub fn grid_ncols(g: &Grid) -> (r: usize)
    ensures
        r == grid_cols(*g),
{
    g.cells.ncols()
}

/// Relies on indexing an `ndarray::Array2` by (row, column), in bounds.
#[verifier::external_body]
pub fn grid_get(g: &Grid, row: usize, col: usize) -> (r: &DataValue)
    requires
        row < grid_seq(*g).len(),
        col < grid_cols(*g),
    ensures
        *r == grid_seq(*g)[row as int][col as int],
{
    &g.cells[(row, col)]
}

/// Relies on assigning through indexing an `ndarray::Array2` by
/// (row, column), in bounds; no other element moves.
#[verifier::external_body]
pub fn grid_set(g: &mut Grid, row: usize, col: usize, v: DataValue)
    requires
        row < grid_seq(*old(g)).len(),
        col < grid_cols(*old(g)),
    ensures
        grid_seq(*final(g)) == grid_seq(*old(g)).update(
            row as int,
            grid_seq(*old(g))[row as int].update(col as int, v),
        ),
        grid_cols(*final(g)) == grid_cols(*old(g)),
{
    g.cells[(row, col)] = v;
}

/// Relies on `ndarray::Array2::row` and `to_vec`: the cells of one row, in
/// column order.
#[verifier::external_body]
pub fn grid_row(g: &Grid, row: usize) -> (r: Vec<DataValue>)
    requires
        row < grid_seq(*g).len(),
    ensures
        r@ == grid_seq(*g)[row as int],
{
    g.cells.row(row).to_vec()
}

/// Relies on `ndarray::Array2::column` and `to_vec`: the cells of one
/// column, in row order.
#[verifier::external_body]
pub fn grid_column(g: &Grid, col: usize) -> (r: Vec<DataValue>)
    requires
        col < grid_cols(*g),
    ensures
        r@.len() == grid_seq(*g).len(),
        forall|i: int| 0 <= i < grid_seq(*g).len() ==> r@[i] == grid_seq(*g)[i][col as int],
{
    g.cells.column(col).to_vec()
}

/// Relies on `ndarray::Array2::push_row`: appends the row after the last
/// one; succeeds whenever the row is as long as the array's column count.
#[verifier::external_body]
pub fn grid_push_row(g: &mut Grid, row: Vec<DataValue>)
    requires
        row@.len() == grid_cols(*old(g)),
    ensures
        grid_seq(*final(g)) == grid_seq(*old(g)).push(row@),
        grid_cols(*final(g)) == grid_cols(*old(g)),
{
    g.cells.push_row(ndarray::ArrayView1::from(row.as_slice())).unwrap();
}

} // verus!
